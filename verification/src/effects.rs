//! Handles to the particle effects that the renderer keeps.
use vstd::prelude::*;

verus! {

/// The index under which the effect registry keeps an emission descriptor.
/// Any number of entities may hold the same handle; the descriptor behind
/// it is shared and never copied.
#[derive(Clone, Copy, Debug, PartialEq, Eq, Structural)]
pub struct EffectHandle(pub u32);

/// The two effects of a projectile: the trail that follows it in flight
/// and the debris that it throws up on impact.
#[derive(Clone, Copy, Debug, PartialEq, Eq, Structural)]
pub struct BulletEffects {
    pub trail: EffectHandle,
    pub debris: EffectHandle,
}

} // verus!
