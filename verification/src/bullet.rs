//! Projectiles: how one is fired, what it asks of the collision query each
//! tick, and what becomes of it once the query has answered.
use vstd::prelude::*;
use vstd::math::abs;
use crate::effects::EffectHandle;
use crate::impact::{hit_view, impact_of, Hit, HitView, ImpactEffect, ImpactView};
use crate::lifetime::{elapsed, Lifetime};
use crate::roots::{is_sqrt_floor, lemma_sqrt_floor_below, lemma_square_monotone, sqrt_ratio_floor};
use crate::vec2::{Vec2, Vector};

verus! {

/// The speed of every projectile, in thousandths of a world unit per
/// second: 1500 world units per second.
pub const SPEED: i64 = 1_500_000;

/// How long a projectile flies before it expires, in milliseconds.
pub const BULLET_LIFETIME_MS: u64 = 1_000;

/// The largest coordinate of a firing origin, in millionths of a world
/// unit.
pub const ORIGIN_MAX: i64 = 0x4000_0000_0000_0000;

/// The largest coordinate of an aim direction.
pub const AIM_MAX: i64 = 0x8000_0000;

/// `a` does not point against `b`, and vanishes where `b` does.
pub open spec fn same_sign(a: int, b: int) -> bool {
    &&& b > 0 ==> a >= 0
    &&& b < 0 ==> a <= 0
    &&& b == 0 ==> a == 0
}

/// `v` is the direction `dir` brought to the length `SPEED`, each
/// coordinate rounded towards zero: `|v.x|` is the largest integer with
/// `|v.x| * |dir| <= SPEED * |dir.x|`, and likewise `|v.y|`.
pub open spec fn is_muzzle_velocity(v: Vector, dir: Vector) -> bool {
    &&& same_sign(v.x, dir.x)
    &&& same_sign(v.y, dir.y)
    &&& is_sqrt_floor(abs(v.x) as int, SPEED * SPEED * (dir.x * dir.x), dir.norm_sq())
    &&& is_sqrt_floor(abs(v.y) as int, SPEED * SPEED * (dir.y * dir.y), dir.norm_sq())
}

/// `v` has the length `SPEED`, as nearly as integer coordinates allow: it
/// is no longer, and becomes longer once each coordinate grows by one.
pub open spec fn at_speed(v: Vector) -> bool {
    &&& v.norm_sq() <= SPEED * SPEED
    &&& SPEED * SPEED < (abs(v.x) + 1) * (abs(v.x) + 1) + (abs(v.y) + 1) * (abs(v.y) + 1)
}

/// A projectile, as the contracts see it.
pub struct BulletView {
    pub pos: Vector,
    pub vel: Vector,
    pub remaining: int,
    pub trail: EffectHandle,
}

/// What has become of a projectile after a tick, as the contracts see it.
pub enum MovedView {
    Flying(BulletView),
    Expired,
    Impact(ImpactView),
}

impl BulletView {
    /// The projectile is alive, flies at the fixed speed, and is no
    /// further from where a projectile can be fired than its age allows.
    pub open spec fn wf(self) -> bool {
        &&& 0 < self.remaining <= BULLET_LIFETIME_MS
        &&& self.vel.within(SPEED as int)
        &&& at_speed(self.vel)
        &&& self.pos.within(ORIGIN_MAX + SPEED * (BULLET_LIFETIME_MS - self.remaining))
    }

    /// The projectile `dt` milliseconds further along its line.
    pub open spec fn flown(self, dt: int) -> BulletView {
        BulletView {
            pos: self.pos.plus(self.vel.scaled(dt)),
            remaining: self.remaining - dt,
            ..self
        }
    }

    /// The projectile after a tick of `dt` milliseconds in which it struck
    /// nothing: further along its line while it has time left, gone from
    /// the moment its time is up.
    pub open spec fn flight(self, dt: int) -> Option<BulletView> {
        match elapsed(self.remaining, dt) {
            Some(_) => Some(self.flown(dt)),
            None => None,
        }
    }

    /// What becomes of the projectile in a tick of `dt` milliseconds, given
    /// the answer of the collision query. A hit ends it at once and leaves
    /// debris, whatever time it had left. A tick of no length sweeps
    /// nothing, so that no answer to it counts.
    pub open spec fn moved(self, dt: int, hit: Option<HitView>, debris: EffectHandle) -> MovedView {
        if dt > 0 && hit is Some {
            MovedView::Impact(impact_of(hit->0, self.vel, debris))
        } else {
            match self.flight(dt) {
                Some(next) => MovedView::Flying(next),
                None => MovedView::Expired,
            }
        }
    }

    /// `query` is what the projectile asks of the collision query in a
    /// tick of `dt` milliseconds: nothing in a tick of no length, and else
    /// the nearest solid hit on the ray from where it is, along its
    /// velocity, within the length of the tick.
    pub open spec fn sweeps(self, dt: int, query: Option<SweepQuery>) -> bool {
        match query {
            Some(q) => {
                &&& dt > 0
                &&& q.origin@ == self.pos
                &&& q.direction@ == self.vel
                &&& q.max_toi == dt
                &&& q.solid
            },
            None => dt <= 0,
        }
    }

    /// The projectile after the ticks `dts`, in none of which it struck
    /// anything, or nothing where its time was up along the way.
    pub open spec fn run(self, dts: Seq<nat>) -> Option<BulletView>
        decreases dts.len(),
    {
        if dts.len() == 0 {
            Some(self)
        } else {
            match self.run(dts.drop_last()) {
                Some(before) => before.flight(dts.last() as int),
                None => None,
            }
        }
    }
}

/// The sum of the lengths of some ticks.
pub open spec fn total(dts: Seq<nat>) -> int
    decreases dts.len(),
{
    if dts.len() == 0 {
        0
    } else {
        total(dts.drop_last()) + dts.last()
    }
}

/// A projectile that strikes nothing keeps to its line at its speed: after
/// any number of ticks it stands at its origin plus its velocity times all
/// the time that has passed, and has that much less time left.
pub proof fn lemma_straight_line(b: BulletView, dts: Seq<nat>)
    ensures
        match b.run(dts) {
            Some(after) => {
                &&& after.pos == b.pos.plus(b.vel.scaled(total(dts)))
                &&& after.vel == b.vel
                &&& after.remaining == b.remaining - total(dts)
                &&& after.trail == b.trail
            },
            None => true,
        },
    decreases dts.len(),
{
    if dts.len() > 0 {
        lemma_straight_line(b, dts.drop_last());
        let t = total(dts.drop_last());
        let dt = dts.last() as int;
        assert(b.vel.x * t + b.vel.x * dt == b.vel.x * (t + dt)) by (nonlinear_arith);
        assert(b.vel.y * t + b.vel.y * dt == b.vel.y * (t + dt)) by (nonlinear_arith);
    }
}

/// A sweep covers the whole way of the tick: wherever the projectile
/// would be at some moment of the tick, that place lies on the swept ray
/// at that time of impact, within the reach of the query. So an obstacle
/// on the way is met by the sweep, however far the projectile moves in one
/// tick and however thin the obstacle is.
pub proof fn lemma_sweep_covers_flight(b: BulletView, dt: int, query: SweepQuery, t: int)
    requires
        b.sweeps(dt, Some(query)),
        0 <= t <= dt,
    ensures
        t <= query.max_toi,
        b.flown(t).pos == query.origin@.plus(query.direction@.scaled(t)),
        b.flown(dt).pos == query.end(),
{
}

/// A projectile that strikes nothing lives exactly as long as its
/// lifetime: it is there after some ticks if and only if they took less
/// time than it had left. So its time never grows, it is gone at the first
/// tick that uses its time up, and it does not come back.
pub proof fn lemma_expiry(b: BulletView, dts: Seq<nat>)
    requires
        b.remaining > 0,
    ensures
        total(dts) >= 0,
        b.run(dts) is Some <==> total(dts) < b.remaining,
        b.run(dts) is Some ==> 0 < b.run(dts)->0.remaining <= b.remaining,
    decreases dts.len(),
{
    if dts.len() > 0 {
        lemma_expiry(b, dts.drop_last());
        lemma_straight_line(b, dts.drop_last());
    }
}

/// A direction brought to the muzzle speed has that speed, and none of
/// its coordinates exceeds it.
pub proof fn lemma_muzzle_speed(v: Vector, dir: Vector)
    requires
        is_muzzle_velocity(v, dir),
        !(dir.x == 0 && dir.y == 0),
    ensures
        at_speed(v),
        v.within(SPEED as int),
{
    let s2 = SPEED * SPEED;
    let n = dir.norm_sq();
    let p = abs(v.x) as int;
    let q = abs(v.y) as int;
    let xx = dir.x * dir.x;
    let yy = dir.y * dir.y;
    assert(xx >= 0 && yy >= 0 && xx + yy > 0) by (nonlinear_arith)
        requires
            xx == dir.x * dir.x,
            yy == dir.y * dir.y,
            !(dir.x == 0 && dir.y == 0),
    ;
    assert(v.x * v.x == p * p) by (nonlinear_arith)
        requires
            p == v.x || p == -v.x,
    ;
    assert(v.y * v.y == q * q) by (nonlinear_arith)
        requires
            q == v.y || q == -v.y,
    ;
    assert(p * p + q * q <= s2) by (nonlinear_arith)
        requires
            p * p * n <= s2 * xx,
            q * q * n <= s2 * yy,
            n == xx + yy,
            n > 0,
    ;
    assert(s2 < (p + 1) * (p + 1) + (q + 1) * (q + 1)) by (nonlinear_arith)
        requires
            s2 * xx < (p + 1) * (p + 1) * n,
            s2 * yy < (q + 1) * (q + 1) * n,
            n == xx + yy,
            n > 0,
    ;
    assert(p <= SPEED && q <= SPEED) by (nonlinear_arith)
        requires
            p * p + q * q <= SPEED * SPEED,
            p >= 0,
            q >= 0,
    ;
}

/// Why a projectile cannot be fired.
#[derive(Clone, Copy, Debug, PartialEq, Eq, Structural)]
pub enum SpawnError {
    /// The origin has a coordinate beyond `ORIGIN_MAX`.
    OriginOutOfRange,
    /// The aim direction has a coordinate beyond `AIM_MAX`.
    DirectionOutOfRange,
    /// The aim direction is zero and points nowhere.
    ZeroDirection,
}

/// The reason for which no projectile can be fired from `pos` along
/// `dir`, if there is one.
pub open spec fn spawn_error(pos: Vector, dir: Vector) -> Option<SpawnError> {
    if !pos.within(ORIGIN_MAX as int) {
        Some(SpawnError::OriginOutOfRange)
    } else if !dir.within(AIM_MAX as int) {
        Some(SpawnError::DirectionOutOfRange)
    } else if dir.x == 0 && dir.y == 0 {
        Some(SpawnError::ZeroDirection)
    } else {
        None
    }
}

/// The segment that a projectile sweeps in one tick, as handed to the
/// collision query: the query is to report the nearest solid hit on the
/// ray from `origin` along `direction` at a time of impact of at most
/// `max_toi` milliseconds.
#[derive(Clone, Copy, Debug, PartialEq, Eq, Structural)]
pub struct SweepQuery {
    /// Where the ray starts, in millionths of a world unit.
    pub origin: Vec2,
    /// The velocity along the ray, in millionths of a world unit per
    /// millisecond.
    pub direction: Vec2,
    /// The length of the tick, in milliseconds.
    pub max_toi: u32,
    /// Whether a ray that starts inside an obstacle hits it at once.
    pub solid: bool,
}

impl SweepQuery {
    /// The far end of the swept segment.
    pub open spec fn end(self) -> Vector {
        self.origin@.plus(self.direction@.scaled(self.max_toi as int))
    }
}

/// A projectile in flight.
#[derive(Clone, Copy, Debug, PartialEq, Eq, Structural)]
pub struct Bullet {
    pos: Vec2,
    vel: Vec2,
    lifetime: Lifetime,
    trail: EffectHandle,
}

impl View for Bullet {
    type V = BulletView;

    closed spec fn view(&self) -> BulletView {
        BulletView { pos: self.pos@, vel: self.vel@, remaining: self.lifetime@, trail: self.trail }
    }
}

/// What has become of a projectile after a tick.
#[derive(Clone, Copy, Debug, PartialEq, Eq, Structural)]
pub enum Moved {
    /// It struck nothing and flies on.
    Flying(Bullet),
    /// It struck nothing, and its time is up.
    Expired,
    /// It struck an obstacle and left this debris.
    Impact(ImpactEffect),
}

impl View for Moved {
    type V = MovedView;

    open spec fn view(&self) -> MovedView {
        match *self {
            Moved::Flying(b) => MovedView::Flying(b@),
            Moved::Expired => MovedView::Expired,
            Moved::Impact(e) => MovedView::Impact(e@),
        }
    }
}

/// One coordinate of an aim direction brought to the muzzle speed, where
/// `n` is the squared length of the direction.
fn muzzle_component(c: i64, n: u128) -> (v: i64)
    requires
        -AIM_MAX <= c <= AIM_MAX,
        0 < n <= 2 * (AIM_MAX * AIM_MAX),
        c * c <= n,
    ensures
        same_sign(v as int, c as int),
        is_sqrt_floor(abs(v as int) as int, SPEED * SPEED * (c * c), n as int),
        -SPEED <= v <= SPEED,
{
    let a: u128 = if c < 0 {
        (-c) as u128
    } else {
        c as u128
    };
    proof {
        lemma_square_monotone(a as int, AIM_MAX as int, 1);
        assert(a * a == c * c) by (nonlinear_arith)
            requires
                a == c || a == -c,
        ;
        assert(SPEED * SPEED * (a * a) <= SPEED * SPEED * n) by (nonlinear_arith)
            requires
                a * a <= n,
        ;
        assert(SPEED * SPEED * n <= SPEED * SPEED * (2 * (AIM_MAX * AIM_MAX))) by (nonlinear_arith)
            requires
                n <= 2 * (AIM_MAX * AIM_MAX),
        ;
        assert(SPEED * SPEED * n < (SPEED + 1) * (SPEED + 1) * n) by (nonlinear_arith)
            requires
                n > 0,
        ;
    }
    let num: u128 = 2_250_000_000_000 * (a * a);
    let root = sqrt_ratio_floor(num, n, 1_500_000);
    proof {
        if c == 0 {
            assert(root == 0) by (nonlinear_arith)
                requires
                    root * root * n <= 0,
                    n > 0,
                    root >= 0,
            ;
        }
    }
    if c < 0 {
        -(root as i64)
    } else {
        root as i64
    }
}

impl Bullet {
    /// Every projectile is alive, flies at the fixed speed, and is no
    /// further from where a projectile can be fired than its age allows.
    #[verifier::type_invariant]
    pub open spec fn wf(self) -> bool {
        self@.wf()
    }

    /// `b` is the projectile that is fired from `pos` along `dir` with the
    /// trail effect `trail`: nothing stands against firing it, it starts
    /// at `pos` with `dir` brought to the muzzle speed, and it has its
    /// full lifetime before it.
    pub open spec fn spawn_ok(b: BulletView, pos: Vector, dir: Vector, trail: EffectHandle) -> bool {
        &&& spawn_error(pos, dir) is None
        &&& b.pos == pos
        &&& is_muzzle_velocity(b.vel, dir)
        &&& b.remaining == BULLET_LIFETIME_MS
        &&& b.trail == trail
        &&& b.wf()
    }

    /// A projectile fired from `pos` along `dir`, with the trail effect
    /// `trail` attached. The direction may have any length but zero; the
    /// projectile flies along it at the fixed speed, with its full
    /// lifetime before it.
    pub fn spawn(pos: Vec2, dir: Vec2, trail: EffectHandle) -> (fired: Result<Bullet, SpawnError>)
        ensures
            match fired {
                Ok(b) => Bullet::spawn_ok(b@, pos@, dir@, trail),
                Err(e) => spawn_error(pos@, dir@) == Some(e),
            },
    {
        if !pos.fits(ORIGIN_MAX) {
            return Err(SpawnError::OriginOutOfRange);
        }
        if !dir.fits(AIM_MAX) {
            return Err(SpawnError::DirectionOutOfRange);
        }
        if dir.is_zero() {
            return Err(SpawnError::ZeroDirection);
        }
        proof {
            lemma_square_monotone(abs(dir.x as int) as int, AIM_MAX as int, 1);
            lemma_square_monotone(abs(dir.y as int) as int, AIM_MAX as int, 1);
            assert(dir.x * dir.x == abs(dir.x as int) * abs(dir.x as int)) by (nonlinear_arith);
            assert(dir.y * dir.y == abs(dir.y as int) * abs(dir.y as int)) by (nonlinear_arith);
            assert(dir.x * dir.x + dir.y * dir.y > 0) by (nonlinear_arith)
                requires
                    !(dir.x == 0 && dir.y == 0),
            ;
        }
        let xx: i64 = dir.x * dir.x;
        let yy: i64 = dir.y * dir.y;
        let n: u128 = xx as u128 + yy as u128;
        let vel = Vec2 { x: muzzle_component(dir.x, n), y: muzzle_component(dir.y, n) };
        proof {
            lemma_muzzle_speed(vel@, dir@);
        }
        Ok(Bullet { pos, vel, lifetime: Lifetime::started(BULLET_LIFETIME_MS), trail })
    }

    /// Where the projectile is, in millionths of a world unit.
    pub fn position(&self) -> (p: Vec2)
        ensures
            p@ == self@.pos,
            self@.wf(),
    {
        proof {
            use_type_invariant(self);
        }
        self.pos
    }

    /// The velocity of the projectile, in thousandths of a world unit per
    /// second. It is the same for as long as the projectile flies.
    pub fn velocity(&self) -> (v: Vec2)
        ensures
            v@ == self@.vel,
            self@.wf(),
    {
        proof {
            use_type_invariant(self);
        }
        self.vel
    }

    /// The milliseconds that the projectile has left.
    pub fn remaining(&self) -> (ms: u64)
        ensures
            ms == self@.remaining,
            self@.wf(),
    {
        proof {
            use_type_invariant(self);
        }
        self.lifetime.remaining()
    }

    /// The handle of the trail effect that follows the projectile.
    pub fn trail(&self) -> (handle: EffectHandle)
        ensures
            handle == self@.trail,
    {
        self.trail
    }

    /// What the projectile asks of the collision query in a tick of `dt`
    /// milliseconds: the whole segment that it would fly through in that
    /// time, from where it is to where it would be, so that no obstacle on
    /// the way is passed over, however thin. A tick of no length sweeps
    /// nothing and asks nothing.
    pub fn sweep(&self, dt: u32) -> (query: Option<SweepQuery>)
        ensures
            self@.sweeps(dt as int, query),
            query is Some ==> query->0.end() == self@.flown(dt as int).pos,
    {
        if dt == 0 {
            None
        } else {
            Some(SweepQuery { origin: self.pos, direction: self.vel, max_toi: dt, solid: true })
        }
    }

    /// What becomes of the projectile in a tick of `dt` milliseconds, given
    /// what the collision query answered to its sweep: `hit` is the
    /// nearest hit, or nothing for a miss or for a query that could not be
    /// answered. On a hit the projectile is gone at once and leaves debris
    /// that shows the effect `debris`; on a miss it flies on for the
    /// length of the tick, or is gone if that uses up its time.
    pub fn move_bullet(self, dt: u32, hit: Option<Hit>, debris: EffectHandle) -> (out: Moved)
        ensures
            out@ == self@.moved(dt as int, hit_view(hit), debris),
            out matches Moved::Flying(b) ==> b@.wf(),
            out matches Moved::Impact(e) ==> e@.wf(),
    {
        proof {
            use_type_invariant(self);
        }
        if dt > 0 {
            if let Some(h) = hit {
                return Moved::Impact(ImpactEffect::spawn(h, self.vel, debris));
            }
        }
        match self.lifetime.elapse(dt) {
            Some(lifetime) => {
                proof {
                    lemma_displacement_bound(self.vel.x as int, dt as int);
                    lemma_displacement_bound(self.vel.y as int, dt as int);
                    assert(SPEED * (BULLET_LIFETIME_MS - self.lifetime@) + SPEED * dt == SPEED * (
                    BULLET_LIFETIME_MS - lifetime@)) by (nonlinear_arith)
                        requires
                            lifetime@ == self.lifetime@ - dt,
                    ;
                    assert(0 <= SPEED * (BULLET_LIFETIME_MS - self.lifetime@) <= SPEED
                        * BULLET_LIFETIME_MS) by (nonlinear_arith)
                        requires
                            0 < self.lifetime@ <= BULLET_LIFETIME_MS,
                    ;
                }
                let dt_ms: i64 = dt as i64;
                let pos = Vec2 {
                    x: self.pos.x + self.vel.x * dt_ms,
                    y: self.pos.y + self.vel.y * dt_ms,
                };
                Moved::Flying(Bullet { pos, lifetime, ..self })
            },
            None => Moved::Expired,
        }
    }
}

/// How far a projectile gets along one axis in a tick: no further than
/// its speed allows.
proof fn lemma_displacement_bound(v: int, dt: int)
    requires
        -SPEED <= v <= SPEED,
        0 <= dt,
    ensures
        -(SPEED * dt) <= v * dt <= SPEED * dt,
{
    assert(-(SPEED * dt) <= v * dt <= SPEED * dt) by (nonlinear_arith)
        requires
            -SPEED <= v <= SPEED,
            0 <= dt,
    ;
}

/// A direction is brought to the muzzle speed in one way only.
pub proof fn lemma_muzzle_velocity_unique(v: Vector, w: Vector, dir: Vector)
    requires
        is_muzzle_velocity(v, dir),
        is_muzzle_velocity(w, dir),
        !(dir.x == 0 && dir.y == 0),
    ensures
        v == w,
{
    let n = dir.norm_sq();
    assert(n > 0) by (nonlinear_arith)
        requires
            n == dir.x * dir.x + dir.y * dir.y,
            !(dir.x == 0 && dir.y == 0),
    ;
    let nx = SPEED * SPEED * (dir.x * dir.x);
    let ny = SPEED * SPEED * (dir.y * dir.y);
    lemma_sqrt_floor_below(abs(v.x) as int, nx, n, abs(w.x) as int);
    lemma_sqrt_floor_below(abs(w.x) as int, nx, n, abs(v.x) as int);
    lemma_sqrt_floor_below(abs(v.y) as int, ny, n, abs(w.y) as int);
    lemma_sqrt_floor_below(abs(w.y) as int, ny, n, abs(v.y) as int);
}

} // verus!
