//! Collision response: the specular reflection of a projectile off the
//! surface that it struck, and the debris effect that is left there.
use vstd::prelude::*;
use crate::effects::EffectHandle;
use crate::lifetime::{elapsed, Lifetime};
use crate::vec2::{Vec2, Vector};

verus! {

/// The largest coordinate of a surface normal. A normal need not have
/// length one: only its direction counts, so a unit normal is handed over
/// scaled up to integers of any convenient size below this bound.
pub const NORMAL_MAX: i64 = 32_768;

/// The largest coordinate of an incoming direction that can be reflected.
pub const DIRECTION_MAX: i64 = 2_097_152;

/// The largest coordinate that a reflected direction can have.
pub const REFLECTED_MAX: i64 = 0x40_0000_0000_0000;

/// How long a debris effect is shown, in milliseconds.
pub const EFFECT_LIFETIME_MS: u64 = 5_000;

/// The mirror image of the direction `d` on a surface with normal `n`,
/// stretched by the squared length of `n`: `|n|^2 d - 2 (d . n) n`. With a
/// normal of length one this is `d - 2 (d . n) n`.
pub open spec fn reflected(d: Vector, n: Vector) -> Vector {
    Vector {
        x: n.norm_sq() * d.x - 2 * d.dot(n) * n.x,
        y: n.norm_sq() * d.y - 2 * d.dot(n) * n.y,
    }
}

/// One coordinate of a reflected direction, multiplied out: with
/// `r = nn * d - 2 * dn * n`, its square and its products with `n` and
/// with another coordinate `m` of the normal.
proof fn lemma_reflected_coordinate(r: int, nn: int, dn: int, d: int, n: int, m: int)
    requires
        r == nn * d - 2 * dn * n,
    ensures
        r * r == nn * nn * (d * d) - 4 * ((nn * dn) * (d * n)) + 4 * ((dn * dn) * (n * n)),
        r * n == nn * (d * n) - 2 * (dn * (n * n)),
        r * m == nn * (d * m) - 2 * (dn * (n * m)),
{
    let p = nn * d;
    let q = 2 * dn * n;
    assert(r * r == p * p - 2 * (p * q) + q * q) by (nonlinear_arith)
        requires
            r == p - q,
    ;
    assert(p * p == nn * nn * (d * d)) by (nonlinear_arith)
        requires
            p == nn * d,
    ;
    assert(p * q == 2 * ((nn * dn) * (d * n))) by (nonlinear_arith)
        requires
            p == nn * d,
            q == 2 * dn * n,
    ;
    assert(q * q == 4 * ((dn * dn) * (n * n))) by (nonlinear_arith)
        requires
            q == 2 * dn * n,
    ;
    assert(r * n == p * n - q * n) by (nonlinear_arith)
        requires
            r == p - q,
    ;
    assert(p * n == nn * (d * n)) by (nonlinear_arith)
        requires
            p == nn * d,
    ;
    assert(q * n == 2 * (dn * (n * n))) by (nonlinear_arith)
        requires
            q == 2 * dn * n,
    ;
    assert(r * m == p * m - q * m) by (nonlinear_arith)
        requires
            r == p - q,
    ;
    assert(p * m == nn * (d * m)) by (nonlinear_arith)
        requires
            p == nn * d,
    ;
    assert(q * m == 2 * (dn * (n * m))) by (nonlinear_arith)
        requires
            q == 2 * dn * n,
    ;
}

/// Reflection keeps the length of a direction, up to the stretch by the
/// squared length of the normal: with a unit normal, `|r| == |d|`.
pub proof fn lemma_reflection_keeps_length(d: Vector, n: Vector)
    ensures
        reflected(d, n).norm_sq() == n.norm_sq() * n.norm_sq() * d.norm_sq(),
        n.norm_sq() == 1 ==> reflected(d, n).norm_sq() == d.norm_sq(),
{
    let nn = n.norm_sq();
    let dn = d.dot(n);
    let r = reflected(d, n);
    lemma_reflected_coordinate(r.x, nn, dn, d.x, n.x, n.y);
    lemma_reflected_coordinate(r.y, nn, dn, d.y, n.y, n.x);
    let dd = d.x * d.x + d.y * d.y;
    assert(nn * nn * (d.x * d.x) + nn * nn * (d.y * d.y) == nn * nn * dd) by (nonlinear_arith)
        requires
            dd == d.x * d.x + d.y * d.y,
    ;
    assert((nn * dn) * (d.x * n.x) + (nn * dn) * (d.y * n.y) == (nn * dn) * dn)
        by (nonlinear_arith)
        requires
            dn == d.x * n.x + d.y * n.y,
    ;
    assert((dn * dn) * (n.x * n.x) + (dn * dn) * (n.y * n.y) == (dn * dn) * nn)
        by (nonlinear_arith)
        requires
            nn == n.x * n.x + n.y * n.y,
    ;
    assert((nn * dn) * dn == (dn * dn) * nn) by (nonlinear_arith);
    if nn == 1 {
        assert(nn * nn * dd == dd) by (nonlinear_arith)
            requires
                nn == 1,
        ;
    }
}

/// Reflection turns the part of a direction along the normal round and
/// leaves the part along the surface as it is.
pub proof fn lemma_reflection_flips_normal_part(d: Vector, n: Vector)
    ensures
        reflected(d, n).dot(n) == -(n.norm_sq() * d.dot(n)),
        reflected(d, n).cross(n) == n.norm_sq() * d.cross(n),
{
    let nn = n.norm_sq();
    let dn = d.dot(n);
    let r = reflected(d, n);
    lemma_reflected_coordinate(r.x, nn, dn, d.x, n.x, n.y);
    lemma_reflected_coordinate(r.y, nn, dn, d.y, n.y, n.x);
    assert(nn * (d.x * n.x) + nn * (d.y * n.y) == nn * dn) by (nonlinear_arith)
        requires
            dn == d.x * n.x + d.y * n.y,
    ;
    assert(dn * (n.x * n.x) + dn * (n.y * n.y) == dn * nn) by (nonlinear_arith)
        requires
            nn == n.x * n.x + n.y * n.y,
    ;
    assert(dn * nn == nn * dn) by (nonlinear_arith);
    assert(n.x * n.y == n.y * n.x) by (nonlinear_arith);
    assert(nn * (d.x * n.y) - nn * (d.y * n.x) == nn * (d.x * n.y - d.y * n.x))
        by (nonlinear_arith);
}

/// A product is bounded by the product of its factors' bounds.
proof fn lemma_product_bound(a: int, b: int, ma: int, mb: int)
    requires
        -ma <= a <= ma,
        -mb <= b <= mb,
    ensures
        -(ma * mb) <= a * b <= ma * mb,
{
    assert(-(ma * mb) <= a * b <= ma * mb) by (nonlinear_arith)
        requires
            -ma <= a <= ma,
            -mb <= b <= mb,
    ;
}

/// The direction `d` mirrored on a surface with normal `n`.
pub fn reflect(d: Vec2, n: Vec2) -> (r: Vec2)
    requires
        d@.within(DIRECTION_MAX as int),
        n@.within(NORMAL_MAX as int),
    ensures
        r@ == reflected(d@, n@),
        r@.within(REFLECTED_MAX as int),
{
    proof {
        lemma_product_bound(n.x as int, n.x as int, NORMAL_MAX as int, NORMAL_MAX as int);
        lemma_product_bound(n.y as int, n.y as int, NORMAL_MAX as int, NORMAL_MAX as int);
        lemma_product_bound(d.x as int, n.x as int, DIRECTION_MAX as int, NORMAL_MAX as int);
        lemma_product_bound(d.y as int, n.y as int, DIRECTION_MAX as int, NORMAL_MAX as int);
    }
    let nn: i64 = n.x * n.x + n.y * n.y;
    let dn: i64 = d.x * n.x + d.y * n.y;
    proof {
        let nn_max = 2 * (NORMAL_MAX * NORMAL_MAX);
        let dn_max = 2 * (DIRECTION_MAX * NORMAL_MAX);
        lemma_product_bound(nn as int, d.x as int, nn_max, DIRECTION_MAX as int);
        lemma_product_bound(nn as int, d.y as int, nn_max, DIRECTION_MAX as int);
        lemma_product_bound(2 * dn, n.x as int, 2 * dn_max, NORMAL_MAX as int);
        lemma_product_bound(2 * dn, n.y as int, 2 * dn_max, NORMAL_MAX as int);
    }
    Vec2 { x: nn * d.x - 2 * dn * n.x, y: nn * d.y - 2 * dn * n.y }
}

/// What a collision query reports of a hit, as the contracts see it.
pub struct HitView {
    pub point: Vector,
    pub normal: Vector,
}

impl HitView {
    /// The normal points somewhere and is small enough to reflect on.
    pub open spec fn wf(self) -> bool {
        &&& self.normal.within(NORMAL_MAX as int)
        &&& !(self.normal.x == 0 && self.normal.y == 0)
    }
}

/// The nearest hit of a swept collision query: the point of impact, in
/// millionths of a world unit, and the outward normal of the surface there.
#[derive(Clone, Copy, Debug, PartialEq, Eq, Structural)]
pub struct Hit {
    point: Vec2,
    normal: Vec2,
}

impl View for Hit {
    type V = HitView;

    closed spec fn view(&self) -> HitView {
        HitView { point: self.point@, normal: self.normal@ }
    }
}

/// The hit of an optional report, as the contracts see it.
pub open spec fn hit_view(hit: Option<Hit>) -> Option<HitView> {
    match hit {
        Some(h) => Some(h@),
        None => None,
    }
}

impl Hit {
    /// Every hit has a normal that points somewhere and is small enough to
    /// reflect on.
    #[verifier::type_invariant]
    pub open spec fn wf(self) -> bool {
        self@.wf()
    }

    /// The hit at `point` on a surface with the given outward normal, or
    /// nothing where the normal is zero or has a coordinate beyond
    /// `NORMAL_MAX`: such a report is no answer, and counts as a miss.
    pub fn new(point: Vec2, normal: Vec2) -> (hit: Option<Hit>)
        ensures
            hit is Some <==> normal@.within(NORMAL_MAX as int) && !(normal.x == 0 && normal.y
                == 0),
            hit is Some ==> hit->0@ == (HitView { point: point@, normal: normal@ }),
    {
        if normal.fits(NORMAL_MAX) && !normal.is_zero() {
            Some(Hit { point, normal })
        } else {
            None
        }
    }

    /// The point of impact.
    pub fn point(&self) -> (p: Vec2)
        ensures
            p@ == self@.point,
    {
        self.point
    }

    /// The outward normal of the surface that was struck.
    pub fn normal(&self) -> (n: Vec2)
        ensures
            n@ == self@.normal,
            self@.wf(),
    {
        proof {
            use_type_invariant(self);
        }
        self.normal
    }
}

/// A debris effect, as the contracts see it.
pub struct ImpactView {
    pub pos: Vector,
    pub up: Vector,
    pub remaining: int,
    pub effect: EffectHandle,
}

impl ImpactView {
    /// The effect is still shown, and its axis is a reflected direction.
    pub open spec fn wf(self) -> bool {
        &&& 0 < self.remaining <= EFFECT_LIFETIME_MS
        &&& self.up.within(REFLECTED_MAX as int)
    }

    /// The direction along which the effect's horizontal axis lies: its
    /// vertical axis turned clockwise by a right angle.
    pub open spec fn right(self) -> Vector {
        self.up.turned_cw()
    }

    /// The effect after `dt` more milliseconds, or nothing once its time
    /// is up.
    pub open spec fn aged(self, dt: int) -> Option<ImpactView> {
        match elapsed(self.remaining, dt) {
            Some(rest) => Some(ImpactView { remaining: rest, ..self }),
            None => None,
        }
    }
}

/// The debris effect that a projectile flying along `incoming` leaves at
/// `hit`: it stands at the reported point of impact, its vertical axis
/// along the reflected direction, with the full display time before it.
pub open spec fn impact_of(hit: HitView, incoming: Vector, effect: EffectHandle) -> ImpactView {
    ImpactView {
        pos: hit.point,
        up: reflected(incoming, hit.normal),
        remaining: EFFECT_LIFETIME_MS as int,
        effect,
    }
}

/// A debris effect at a point of impact. It shows the effect behind its
/// handle, turned so that the effect's vertical axis points along the
/// direction in which the projectile would have bounced off.
#[derive(Clone, Copy, Debug, PartialEq, Eq, Structural)]
pub struct ImpactEffect {
    pos: Vec2,
    up: Vec2,
    lifetime: Lifetime,
    effect: EffectHandle,
}

impl View for ImpactEffect {
    type V = ImpactView;

    closed spec fn view(&self) -> ImpactView {
        ImpactView { pos: self.pos@, up: self.up@, remaining: self.lifetime@, effect: self.effect }
    }
}

impl ImpactEffect {
    /// Every debris effect is still shown, and its axis is a reflected
    /// direction.
    #[verifier::type_invariant]
    pub open spec fn wf(self) -> bool {
        self@.wf()
    }

    /// The debris effect that a projectile flying along `incoming` leaves
    /// at `hit`.
    pub fn spawn(hit: Hit, incoming: Vec2, effect: EffectHandle) -> (debris: ImpactEffect)
        requires
            incoming@.within(DIRECTION_MAX as int),
        ensures
            debris@ == impact_of(hit@, incoming@, effect),
            debris@.wf(),
    {
        let normal = hit.normal();
        let up = reflect(incoming, normal);
        ImpactEffect {
            pos: hit.point(),
            up,
            lifetime: Lifetime::started(EFFECT_LIFETIME_MS),
            effect,
        }
    }

    /// Where the effect stands: the point of impact as it was reported.
    pub fn position(&self) -> (p: Vec2)
        ensures
            p@ == self@.pos,
    {
        self.pos
    }

    /// The direction of the effect's vertical axis: the reflected
    /// direction of the projectile.
    pub fn up(&self) -> (v: Vec2)
        ensures
            v@ == self@.up,
            self@.wf(),
    {
        proof {
            use_type_invariant(self);
        }
        self.up
    }

    /// The direction of the effect's horizontal axis. The effect is turned
    /// by the angle of this direction, which is the angle of the reflected
    /// direction less a right angle.
    pub fn right(&self) -> (v: Vec2)
        ensures
            v@ == self@.right(),
    {
        proof {
            use_type_invariant(self);
        }
        Vec2 { x: self.up.y, y: -self.up.x }
    }

    /// The milliseconds for which the effect is still shown.
    pub fn remaining(&self) -> (ms: u64)
        ensures
            ms == self@.remaining,
            self@.wf(),
    {
        proof {
            use_type_invariant(self);
        }
        self.lifetime.remaining()
    }

    /// The handle of the effect that is shown.
    pub fn effect(&self) -> (handle: EffectHandle)
        ensures
            handle == self@.effect,
    {
        self.effect
    }

    /// The effect after `dt` more milliseconds, or nothing once its time
    /// is up.
    pub fn age(self, dt: u32) -> (rest: Option<ImpactEffect>)
        ensures
            match rest {
                Some(debris) => self@.aged(dt as int) == Some(debris@) && debris@.wf(),
                None => self@.aged(dt as int) is None,
            },
    {
        proof {
            use_type_invariant(self);
        }
        match self.lifetime.elapse(dt) {
            Some(lifetime) => Some(ImpactEffect { lifetime, ..self }),
            None => None,
        }
    }
}

} // verus!
