//! Sphere weapons: their special effects, and the spore grenade, which can
//! be thrown only once.

use vstd::prelude::*;

verus! {

/// Special effects that sphere weapons can apply.
#[derive(Debug, Clone, Copy, PartialEq, Eq, Hash, Structural)]
pub enum SphereWeaponEffect {
    /// Refracts and amplifies light.
    LightEffect,
    /// Spreads fungal spores on impact.
    SporeSpread,
    /// Drains energy from the core.
    CoreDrain,
    /// Repels creatures with gravity manipulation.
    GravityRepel,
    /// Illuminates the surrounding area.
    Illuminates,
}

/// Spore grenade for area denial. Its damage is in whole health points.
#[derive(Debug, Clone)]
pub struct SporeGrenade {
    /// Damage dealt in the area.
    pub damage: u32,
    /// Effect applied on detonation.
    pub effect: SphereWeaponEffect,
    /// Whether the grenade has been used.
    pub consumed: bool,
}

/// The grenade after one use: consumed, all else as it was.
pub open spec fn grenade_after_use(g: SporeGrenade) -> SporeGrenade {
    SporeGrenade { consumed: true, ..g }
}

impl SporeGrenade {
    /// Default damage.
    pub const DEFAULT_DAMAGE: u32 = 4;

    /// Create a new spore grenade.
    pub fn new() -> (g: Self)
        ensures
            g.damage == Self::DEFAULT_DAMAGE,
            g.effect == SphereWeaponEffect::SporeSpread,
            !g.consumed,
    {
        Self { damage: Self::DEFAULT_DAMAGE, effect: SphereWeaponEffect::SporeSpread, consumed: false }
    }

    /// Use the grenade. Returns true if successfully used (single use only).
    pub fn use_weapon(&mut self) -> (used: bool)
        ensures
            used == !old(self).consumed,
            *final(self) == grenade_after_use(*old(self)),
    {
        if !self.consumed {
            self.consumed = true;
            true
        } else {
            false
        }
    }

    /// Check if grenade is still usable.
    pub fn is_usable(&self) -> (r: bool)
        ensures
            r == !self.consumed,
    {
        !self.consumed
    }
}

impl Default for SporeGrenade {
    fn default() -> (g: Self)
        ensures
            g.damage == Self::DEFAULT_DAMAGE,
            g.effect == SphereWeaponEffect::SporeSpread,
            !g.consumed,
    {
        Self::new()
    }
}

/// A spore grenade works once: whatever state it is in, once it has been
/// used it is no longer usable, and using it again changes nothing.
pub proof fn lemma_grenade_single_use(g: SporeGrenade)
    ensures
        grenade_after_use(g).consumed,
        grenade_after_use(grenade_after_use(g)) == grenade_after_use(g),
        grenade_after_use(g).damage == g.damage,
        grenade_after_use(g).effect == g.effect,
{
}

} // verus!
