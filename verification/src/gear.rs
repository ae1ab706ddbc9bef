//! Survival gear: equipment slots, radiation shields and zones, exposure
//! stages, and the charge-based fall arrestor of freefall physics.

use vstd::prelude::*;

verus! {

/// Equipment slot types for sphere-specific gear.
#[derive(Debug, Clone, Copy, PartialEq, Eq, Hash, Structural)]
pub enum SphereEquipmentSlot {
    /// Boots that manipulate local gravity.
    GravityBoots,
    /// Shield that protects from core radiation.
    CoreShield,
    /// Device that arrests falls.
    FallArrestor,
    /// Full body suit for core containment.
    ContainmentSuit,
}

/// Types of radiation shields with different reduction factors.
#[derive(Debug, Clone, Copy, PartialEq, Eq, Structural)]
pub enum ShieldType {
    /// No shield protection.
    NoShield,
    /// Basic radiation suit (30% reduction).
    Basic,
    /// Advanced radiation suit (60% reduction).
    Advanced,
    /// Containment suit (80% reduction).
    Containment,
    /// Ancient artifact protection (95% reduction).
    Artifact,
}

/// Position of a shield type from no protection up: 0 for none up to 4 for
/// the artifact.
pub open spec fn shield_rank(shield: ShieldType) -> nat {
    match shield {
        ShieldType::NoShield => 0,
        ShieldType::Basic => 1,
        ShieldType::Advanced => 2,
        ShieldType::Containment => 3,
        ShieldType::Artifact => 4,
    }
}

/// The share of radiation each shield type blocks, in hundredths.
pub open spec fn spec_reduction_factor(shield: ShieldType) -> u32 {
    match shield {
        ShieldType::NoShield => 0,
        ShieldType::Basic => 30,
        ShieldType::Advanced => 60,
        ShieldType::Containment => 80,
        ShieldType::Artifact => 95,
    }
}

impl ShieldType {
    /// Get the radiation reduction factor for this shield type, in
    /// hundredths of the incoming radiation.
    pub fn reduction_factor(self) -> (r: u32)
        ensures
            r == spec_reduction_factor(self),
    {
        match self {
            ShieldType::NoShield => 0,
            ShieldType::Basic => 30,
            ShieldType::Advanced => 60,
            ShieldType::Containment => 80,
            ShieldType::Artifact => 95,
        }
    }
}

/// Better shields block more, no shield blocks anything, and no shield
/// blocks all radiation.
pub proof fn lemma_better_shields_block_more(a: ShieldType, b: ShieldType)
    ensures
        shield_rank(a) < shield_rank(b) ==> spec_reduction_factor(a) < spec_reduction_factor(b),
        spec_reduction_factor(ShieldType::NoShield) == 0,
        spec_reduction_factor(a) < 100,
{
}

/// Radiation shield protection, its reduction factor in hundredths.
#[derive(Debug, Clone, Copy, PartialEq, Eq, Structural)]
pub struct RadiationShield {
    /// Reduction factor (0 = none, 100 = full protection).
    pub reduction_factor: u32,
    /// Type of shield.
    pub shield_type: ShieldType,
}

impl RadiationShield {
    /// Create a new radiation shield of the given type.
    pub fn new(shield_type: ShieldType) -> (s: Self)
        ensures
            s.shield_type == shield_type,
            s.reduction_factor == spec_reduction_factor(shield_type),
    {
        Self { reduction_factor: shield_type.reduction_factor(), shield_type }
    }

    /// Create with no shielding.
    pub fn none() -> (s: Self)
        ensures
            s.shield_type == ShieldType::NoShield,
            s.reduction_factor == 0,
    {
        Self::new(ShieldType::NoShield)
    }
}

impl Default for RadiationShield {
    fn default() -> (s: Self)
        ensures
            s.shield_type == ShieldType::NoShield,
            s.reduction_factor == 0,
    {
        Self::none()
    }
}

/// Radiation zones based on radiation level.
#[derive(Debug, Clone, Copy, PartialEq, Eq, Structural)]
pub enum RadiationZone {
    /// Safe zone (radiation < 0.1).
    Safe,
    /// Warning zone (radiation 0.1-0.5).
    Warning,
    /// Danger zone (radiation 0.5-0.9).
    Danger,
    /// Lethal zone (radiation > 0.9).
    Lethal,
}

/// Stages of core radiation exposure.
#[derive(Debug, Clone, Copy, PartialEq, Eq, Structural)]
pub enum CoreExposureStage {
    /// No harmful exposure (0.0-0.2).
    Safe,
    /// Mild exposure with minor effects (0.2-0.5).
    Caution,
    /// Significant exposure with noticeable effects (0.5-0.8).
    Danger,
    /// Severe exposure with major impairment (0.8-0.95).
    Critical,
    /// Fatal exposure level (> 0.95).
    Lethal,
}

/// Fall arrestor equipment that can stop a fall.
#[derive(Debug, Clone, Copy, PartialEq, Eq, Structural)]
pub struct FallArrestor {
    /// Whether the arrestor is active.
    pub is_active: bool,
    /// Remaining charges.
    pub charges: u32,
}

/// Activation: with a charge left, one charge is spent and the arrestor
/// becomes active; without, nothing changes and activation fails.
pub open spec fn spec_activate(a: FallArrestor) -> (FallArrestor, bool) {
    if a.charges > 0 {
        (FallArrestor { is_active: true, charges: (a.charges - 1) as u32 }, true)
    } else {
        (a, false)
    }
}

/// The arrestor after `k` activation attempts.
pub open spec fn activated_times(a: FallArrestor, k: nat) -> FallArrestor
    decreases k,
{
    if k == 0 {
        a
    } else {
        spec_activate(activated_times(a, (k - 1) as nat)).0
    }
}

impl FallArrestor {
    /// Create a new fall arrestor with charges.
    pub fn new(charges: u32) -> (a: Self)
        ensures
            a.charges == charges,
            !a.is_active,
    {
        Self { is_active: false, charges }
    }

    /// Check if the arrestor has charges remaining.
    pub fn has_charges(&self) -> (r: bool)
        ensures
            r == (self.charges > 0),
    {
        self.charges > 0
    }

    /// Activate the fall arrestor, consuming one charge.
    ///
    /// Returns true if activation succeeded.
    pub fn activate(&mut self) -> (r: bool)
        ensures
            (*final(self), r) == spec_activate(*old(self)),
    {
        if self.charges > 0 {
            self.charges -= 1;
            self.is_active = true;
            true
        } else {
            false
        }
    }

    /// Reset the active state.
    pub fn reset(&mut self)
        ensures
            final(self).charges == old(self).charges,
            !final(self).is_active,
    {
        self.is_active = false;
    }
}

impl Default for FallArrestor {
    fn default() -> (a: Self)
        ensures
            a.charges == 0,
            !a.is_active,
    {
        Self::new(0)
    }
}

/// An arrestor holding `n` charges stops exactly `n` falls: the first `n`
/// activation attempts succeed, each spending one charge, and every attempt
/// after them fails.
pub proof fn lemma_arrestor_stops_exactly_its_charges(a: FallArrestor, k: nat)
    ensures
        k <= a.charges ==> activated_times(a, k).charges == a.charges - k,
        k < a.charges ==> spec_activate(activated_times(a, k)).1,
        k >= a.charges ==> activated_times(a, k).charges == 0 && !spec_activate(activated_times(a, k)).1,
    decreases k,
{
    if k > 0 {
        lemma_arrestor_stops_exactly_its_charges(a, (k - 1) as nat);
    }
}

} // verus!
