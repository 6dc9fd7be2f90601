//! The entity store and its tick: every projectile is advanced against
//! the answers of the collision query, every debris effect is aged, and
//! what was created or destroyed on the way shows once the tick is over.
use vstd::prelude::*;
use crate::bullet::{spawn_error, Bullet, BulletView, Moved, MovedView, SpawnError, SweepQuery};
use crate::effects::{BulletEffects, EffectHandle};
use crate::impact::{hit_view, Hit, HitView, ImpactEffect, ImpactView};
use crate::vec2::Vec2;

verus! {

/// The effects of a store, as the contracts see them.
pub open spec fn effect_views(effects: Seq<ImpactEffect>) -> Seq<ImpactView> {
    effects.map_values(|e: ImpactEffect| e@)
}

/// The projectiles of a store, as the contracts see them.
pub open spec fn bullet_views(bullets: Seq<Bullet>) -> Seq<BulletView> {
    bullets.map_values(|b: Bullet| b@)
}

/// The answers of the collision query, as the contracts see them.
pub open spec fn hit_views(hits: Seq<Option<Hit>>) -> Seq<Option<HitView>> {
    hits.map_values(|h: Option<Hit>| hit_view(h))
}

/// Of the first `n` of `effects`, those that are still shown after `dt`
/// more milliseconds, each with that much less time left, in their order.
pub open spec fn aged_effects(effects: Seq<ImpactView>, dt: int, n: int) -> Seq<ImpactView>
    decreases n,
{
    if n <= 0 || n > effects.len() {
        Seq::empty()
    } else {
        let before = aged_effects(effects, dt, n - 1);
        match effects[n - 1].aged(dt) {
            Some(e) => before.push(e),
            None => before,
        }
    }
}

/// `shown` says of each of `effects`, in their order, whether it is still
/// shown after `dt` more milliseconds.
pub open spec fn still_shown(effects: Seq<ImpactView>, dt: int, shown: Seq<bool>) -> bool {
    &&& shown.len() == effects.len()
    &&& forall|i: int|
        0 <= i < effects.len() ==> shown[i] == ((#[trigger] effects[i]).aged(dt) is Some)
}

/// Ages every effect by `dt` milliseconds and removes those whose time is
/// up. The others keep their order. The result says of each effect that
/// was there whether it is still shown.
pub fn despawn_after_lifetime(effects: &mut Vec<ImpactEffect>, dt: u32) -> (shown: Vec<bool>)
    ensures
        effect_views(final(effects)@) == aged_effects(
            effect_views(old(effects)@),
            dt as int,
            old(effects)@.len() as int,
        ),
        still_shown(effect_views(old(effects)@), dt as int, shown@),
        forall|i: int| 0 <= i < final(effects)@.len() ==> (#[trigger] final(effects)@[i])@.wf(),
{
    let mut kept: Vec<ImpactEffect> = Vec::new();
    let mut shown: Vec<bool> = Vec::new();
    let n = effects.len();
    let mut i: usize = 0;
    while i < n
        invariant
            i <= n,
            n == effects@.len(),
            effects@ == old(effects)@,
            effect_views(kept@) == aged_effects(effect_views(effects@), dt as int, i as int),
            shown@.len() == i,
            forall|j: int|
                0 <= j < i ==> shown@[j] == ((#[trigger] effect_views(effects@)[j]).aged(dt as int)
                    is Some),
            forall|j: int| 0 <= j < kept@.len() ==> (#[trigger] kept@[j])@.wf(),
        decreases n - i,
    {
        let ghost before = effect_views(kept@);
        match effects[i].age(dt) {
            Some(e) => {
                kept.push(e);
                shown.push(true);
                assert(effect_views(kept@) == before.push(e@));
            },
            None => {
                shown.push(false);
            },
        }
        i += 1;
    }
    *effects = kept;
    shown
}

/// The answer to the sweep of the projectile at index `i`. Where the
/// collision query gave fewer answers than there are projectiles, the
/// missing ones count as misses.
pub open spec fn answer(hits: Seq<Option<HitView>>, i: int) -> Option<HitView> {
    if 0 <= i < hits.len() {
        hits[i]
    } else {
        None
    }
}

/// Of the first `n` of `bullets`, those that fly on after a tick of `dt`
/// milliseconds, each where it has got to, in their order.
pub open spec fn survivors(
    bullets: Seq<BulletView>,
    hits: Seq<Option<HitView>>,
    dt: int,
    debris: EffectHandle,
    n: int,
) -> Seq<BulletView>
    decreases n,
{
    if n <= 0 || n > bullets.len() {
        Seq::empty()
    } else {
        let before = survivors(bullets, hits, dt, debris, n - 1);
        match bullets[n - 1].moved(dt, answer(hits, n - 1), debris) {
            MovedView::Flying(b) => before.push(b),
            _ => before,
        }
    }
}

/// The debris that the first `n` of `bullets` leave in a tick of `dt`
/// milliseconds: one effect for each that struck something, in their
/// order.
pub open spec fn impacts(
    bullets: Seq<BulletView>,
    hits: Seq<Option<HitView>>,
    dt: int,
    debris: EffectHandle,
    n: int,
) -> Seq<ImpactView>
    decreases n,
{
    if n <= 0 || n > bullets.len() {
        Seq::empty()
    } else {
        let before = impacts(bullets, hits, dt, debris, n - 1);
        match bullets[n - 1].moved(dt, answer(hits, n - 1), debris) {
            MovedView::Impact(e) => before.push(e),
            _ => before,
        }
    }
}

/// What a tick did to each entity that was in the store, for a host that
/// shows the entities and has to take the same steps on what it shows.
#[derive(Debug, Clone)]
pub struct TickReport {
    /// What became of each projectile, in the order of the projectiles.
    pub bullets: Vec<Moved>,
    /// Whether each debris effect is still shown, in the order of the
    /// effects.
    pub effects: Vec<bool>,
}

/// The fates of some projectiles, as the contracts see them.
pub open spec fn moved_views(fates: Seq<Moved>) -> Seq<MovedView> {
    fates.map_values(|m: Moved| m@)
}

/// The entity store, as the contracts see it.
pub struct WorldView {
    pub bullets: Seq<BulletView>,
    pub effects: Seq<ImpactView>,
    pub assets: BulletEffects,
}

impl WorldView {
    /// Every projectile and every effect of the store is well formed: in
    /// particular, each is alive.
    pub open spec fn wf(self) -> bool {
        &&& forall|i: int| 0 <= i < self.bullets.len() ==> (#[trigger] self.bullets[i]).wf()
        &&& forall|i: int| 0 <= i < self.effects.len() ==> (#[trigger] self.effects[i]).wf()
    }

    /// `fates` says what becomes of each projectile of the store in a tick
    /// of `dt` milliseconds, given the answers of the collision query to
    /// the sweeps of the projectiles, in their order.
    pub open spec fn fates(self, dt: int, hits: Seq<Option<HitView>>, fates: Seq<MovedView>) -> bool {
        &&& fates.len() == self.bullets.len()
        &&& forall|i: int|
            0 <= i < self.bullets.len() ==> fates[i] == (#[trigger] self.bullets[i]).moved(
                dt,
                answer(hits, i),
                self.assets.debris,
            )
    }

    /// The store after a tick of `dt` milliseconds, given the answers of
    /// the collision query to the sweeps of its projectiles, in their
    /// order. The effects that were there are aged, and those whose time
    /// is up are gone. Each projectile that struck something is gone and
    /// has left debris, which starts with its full display time; each
    /// other one has flown on, or is gone because its time is up.
    pub open spec fn ticked(self, dt: int, hits: Seq<Option<HitView>>) -> WorldView {
        WorldView {
            bullets: survivors(
                self.bullets,
                hits,
                dt,
                self.assets.debris,
                self.bullets.len() as int,
            ),
            effects: aged_effects(self.effects, dt, self.effects.len() as int) + impacts(
                self.bullets,
                hits,
                dt,
                self.assets.debris,
                self.bullets.len() as int,
            ),
            assets: self.assets,
        }
    }
}

/// The entity store: the projectiles in flight and the debris effects on
/// show, each in the order in which they were created.
#[derive(Debug, Clone)]
pub struct World {
    bullets: Vec<Bullet>,
    effects: Vec<ImpactEffect>,
    assets: BulletEffects,
}

impl View for World {
    type V = WorldView;

    closed spec fn view(&self) -> WorldView {
        WorldView {
            bullets: bullet_views(self.bullets@),
            effects: effect_views(self.effects@),
            assets: self.assets,
        }
    }
}

impl World {
    /// An empty store whose projectiles will carry the given effects.
    pub fn new(assets: BulletEffects) -> (world: World)
        ensures
            world@ == (WorldView { bullets: Seq::empty(), effects: Seq::empty(), assets }),
            world@.wf(),
    {
        let world = World { bullets: Vec::new(), effects: Vec::new(), assets };
        assert(world@.bullets =~= Seq::empty());
        assert(world@.effects =~= Seq::empty());
        world
    }

    /// The number of projectiles in flight.
    pub fn bullet_count(&self) -> (n: usize)
        ensures
            n == self@.bullets.len(),
    {
        self.bullets.len()
    }

    /// The projectile at index `i`, or nothing where there are not so
    /// many.
    pub fn bullet(&self, i: usize) -> (b: Option<Bullet>)
        ensures
            i < self@.bullets.len() ==> b is Some && b->0@ == self@.bullets[i as int],
            i >= self@.bullets.len() ==> b is None,
    {
        if i < self.bullets.len() {
            Some(self.bullets[i])
        } else {
            None
        }
    }

    /// The number of debris effects on show.
    pub fn effect_count(&self) -> (n: usize)
        ensures
            n == self@.effects.len(),
    {
        self.effects.len()
    }

    /// The debris effect at index `i`, or nothing where there are not so
    /// many.
    pub fn effect(&self, i: usize) -> (e: Option<ImpactEffect>)
        ensures
            i < self@.effects.len() ==> e is Some && e->0@ == self@.effects[i as int],
            i >= self@.effects.len() ==> e is None,
    {
        if i < self.effects.len() {
            Some(self.effects[i])
        } else {
            None
        }
    }

    /// Fires a projectile from `origin` along `aim`. It joins the store
    /// behind the projectiles that are there. Where it cannot be fired the
    /// store stays as it is.
    pub fn fire(&mut self, origin: Vec2, aim: Vec2) -> (fired: Result<Bullet, SpawnError>)
        ensures
            match fired {
                Ok(b) => {
                    &&& Bullet::spawn_ok(b@, origin@, aim@, old(self)@.assets.trail)
                    &&& final(self)@ == (WorldView {
                        bullets: old(self)@.bullets.push(b@),
                        ..old(self)@
                    })
                },
                Err(e) => spawn_error(origin@, aim@) == Some(e) && final(self)@ == old(self)@,
            },
            old(self)@.wf() ==> final(self)@.wf(),
    {
        match Bullet::spawn(origin, aim, self.assets.trail) {
            Ok(b) => {
                let ghost before = bullet_views(self.bullets@);
                self.bullets.push(b);
                assert(bullet_views(self.bullets@) == before.push(b@));
                Ok(b)
            },
            Err(e) => Err(e),
        }
    }

    /// What each projectile asks of the collision query in a tick of `dt`
    /// milliseconds, in the order of the projectiles.
    pub fn sweeps(&self, dt: u32) -> (queries: Vec<Option<SweepQuery>>)
        ensures
            queries@.len() == self@.bullets.len(),
            forall|i: int|
                0 <= i < queries@.len() ==> (#[trigger] self@.bullets[i]).sweeps(
                    dt as int,
                    queries@[i],
                ),
    {
        let mut queries: Vec<Option<SweepQuery>> = Vec::new();
        let n = self.bullets.len();
        let mut i: usize = 0;
        while i < n
            invariant
                i <= n,
                n == self.bullets@.len(),
                queries@.len() == i,
                forall|j: int|
                    0 <= j < i ==> (#[trigger] self@.bullets[j]).sweeps(dt as int, queries@[j]),
            decreases n - i,
        {
            queries.push(self.bullets[i].sweep(dt));
            i += 1;
        }
        queries
    }

    /// Runs one tick of `dt` milliseconds. `hits` holds the answers of the
    /// collision query to the sweeps of the projectiles, in their order:
    /// the nearest hit, or nothing for a miss. A missing answer counts as
    /// a miss too.
    ///
    /// To count a query that could not be answered as a miss lets a
    /// projectile pass where it might have struck; this keeps the game
    /// going, and is no promise that nothing was in the way.
    ///
    /// The debris effects are aged first, so that debris created in this
    /// tick starts with its full display time. What a tick creates or
    /// destroys shows only once it is over: no projectile sees another
    /// one's debris, and each is advanced exactly once. The report says
    /// what was done to each entity that was there.
    pub fn tick(&mut self, dt: u32, hits: &Vec<Option<Hit>>) -> (report: TickReport)
        ensures
            final(self)@ == old(self)@.ticked(dt as int, hit_views(hits@)),
            final(self)@.wf(),
            old(self)@.fates(dt as int, hit_views(hits@), moved_views(report.bullets@)),
            still_shown(old(self)@.effects, dt as int, report.effects@),
    {
        let debris = self.assets.debris;
        let shown = despawn_after_lifetime(&mut self.effects, dt);
        let ghost aged = effect_views(self.effects@);
        let mut flying: Vec<Bullet> = Vec::new();
        let mut fates: Vec<Moved> = Vec::new();
        let n = self.bullets.len();
        let mut i: usize = 0;
        assert(effect_views(self.effects@) =~= aged + Seq::empty());
        while i < n
            invariant
                i <= n,
                n == self.bullets@.len(),
                self.bullets@ == old(self).bullets@,
                self.assets == old(self).assets,
                debris == self.assets.debris,
                bullet_views(flying@) == survivors(
                    bullet_views(self.bullets@),
                    hit_views(hits@),
                    dt as int,
                    debris,
                    i as int,
                ),
                effect_views(self.effects@) == aged + impacts(
                    bullet_views(self.bullets@),
                    hit_views(hits@),
                    dt as int,
                    debris,
                    i as int,
                ),
                fates@.len() == i,
                forall|j: int|
                    0 <= j < i ==> fates@[j]@ == (#[trigger] bullet_views(self.bullets@)[j]).moved(
                        dt as int,
                        answer(hit_views(hits@), j),
                        debris,
                    ),
                forall|j: int| 0 <= j < flying@.len() ==> (#[trigger] flying@[j])@.wf(),
                forall|j: int| 0 <= j < self.effects@.len() ==> (#[trigger] self.effects@[j])@.wf(),
            decreases n - i,
        {
            let hit = if i < hits.len() {
                hits[i]
            } else {
                None
            };
            assert(hit_view(hit) == answer(hit_views(hits@), i as int));
            let ghost flying_before = bullet_views(flying@);
            let ghost effects_before = effect_views(self.effects@);
            let ghost impacts_before = impacts(
                bullet_views(self.bullets@),
                hit_views(hits@),
                dt as int,
                debris,
                i as int,
            );
            let fate = self.bullets[i].move_bullet(dt, hit, debris);
            match fate {
                Moved::Flying(b) => {
                    flying.push(b);
                    assert(bullet_views(flying@) =~= flying_before.push(b@));
                },
                Moved::Expired => {},
                Moved::Impact(e) => {
                    self.effects.push(e);
                    assert(effect_views(self.effects@) =~= effects_before.push(e@));
                    assert(effects_before.push(e@) =~= aged + impacts_before.push(e@));
                },
            }
            fates.push(fate);
            i += 1;
        }
        self.bullets = flying;
        TickReport { bullets: fates, effects: shown }
    }
}

} // verus!
