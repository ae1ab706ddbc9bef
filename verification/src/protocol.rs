//! Entity kinds of the network protocol extension.

use vstd::prelude::*;

verus! {

/// Entity types unique to the hollow earth world.
#[derive(Clone, Copy, Debug, PartialEq, Eq, Hash, Structural)]
pub enum HollowEarthEntityKind {
    /// Armored crawler that inhabits shell cavities.
    ShellCrawler,
    /// Sentient fungal colony that spreads spores.
    FungalBloom,
    /// Spectral entity drawn to core energy.
    CoreWraith,
    /// Massive serpent made of living crystal.
    CrystalSerpent,
    /// Titanic creature dwelling in the deepest depths.
    AbyssalLeviathan,
    /// Bioluminescent beetle providing light.
    GlowBeetle,
    /// Docile grazer feeding on cavern moss.
    MossGrazer,
    /// Fish adapted to underground water bodies.
    CaveFish,
    /// Small mite living in shell material.
    ShellMite,
    /// Moth attracted to luminescent fungi.
    SporeMoth,
}

/// The five hostile kinds.
pub open spec fn spec_is_hostile(kind: HollowEarthEntityKind) -> bool {
    match kind {
        HollowEarthEntityKind::ShellCrawler
        | HollowEarthEntityKind::FungalBloom
        | HollowEarthEntityKind::CoreWraith
        | HollowEarthEntityKind::CrystalSerpent
        | HollowEarthEntityKind::AbyssalLeviathan => true,
        _ => false,
    }
}

/// Display name of each kind.
pub open spec fn spec_kind_name(kind: HollowEarthEntityKind) -> Seq<char> {
    match kind {
        HollowEarthEntityKind::ShellCrawler => "Shell Crawler"@,
        HollowEarthEntityKind::FungalBloom => "Fungal Bloom"@,
        HollowEarthEntityKind::CoreWraith => "Core Wraith"@,
        HollowEarthEntityKind::CrystalSerpent => "Crystal Serpent"@,
        HollowEarthEntityKind::AbyssalLeviathan => "Abyssal Leviathan"@,
        HollowEarthEntityKind::GlowBeetle => "Glow Beetle"@,
        HollowEarthEntityKind::MossGrazer => "Moss Grazer"@,
        HollowEarthEntityKind::CaveFish => "Cave Fish"@,
        HollowEarthEntityKind::ShellMite => "Shell Mite"@,
        HollowEarthEntityKind::SporeMoth => "Spore Moth"@,
    }
}

/// Maximum health of each kind, in whole health points.
pub open spec fn spec_max_health(kind: HollowEarthEntityKind) -> u32 {
    match kind {
        HollowEarthEntityKind::ShellCrawler => 25,
        HollowEarthEntityKind::FungalBloom => 15,
        HollowEarthEntityKind::CoreWraith => 40,
        HollowEarthEntityKind::CrystalSerpent => 100,
        HollowEarthEntityKind::AbyssalLeviathan => 500,
        HollowEarthEntityKind::GlowBeetle => 4,
        HollowEarthEntityKind::MossGrazer => 12,
        HollowEarthEntityKind::CaveFish => 3,
        HollowEarthEntityKind::ShellMite => 2,
        HollowEarthEntityKind::SporeMoth => 2,
    }
}

impl HollowEarthEntityKind {
    /// Get the maximum health for this entity type, in whole health points.
    pub fn max_health(self) -> (h: u32)
        ensures
            h == spec_max_health(self),
    {
        match self {
            HollowEarthEntityKind::ShellCrawler => 25,
            HollowEarthEntityKind::FungalBloom => 15,
            HollowEarthEntityKind::CoreWraith => 40,
            HollowEarthEntityKind::CrystalSerpent => 100,
            HollowEarthEntityKind::AbyssalLeviathan => 500,
            HollowEarthEntityKind::GlowBeetle => 4,
            HollowEarthEntityKind::MossGrazer => 12,
            HollowEarthEntityKind::CaveFish => 3,
            HollowEarthEntityKind::ShellMite => 2,
            HollowEarthEntityKind::SporeMoth => 2,
        }
    }

    /// Check if this entity is hostile.
    pub fn is_hostile(self) -> (r: bool)
        ensures
            r == spec_is_hostile(self),
    {
        match self {
            HollowEarthEntityKind::ShellCrawler
            | HollowEarthEntityKind::FungalBloom
            | HollowEarthEntityKind::CoreWraith
            | HollowEarthEntityKind::CrystalSerpent
            | HollowEarthEntityKind::AbyssalLeviathan => true,
            _ => false,
        }
    }

    /// Check if this entity is passive: every kind that is not hostile.
    pub fn is_passive(self) -> (r: bool)
        ensures
            r == !spec_is_hostile(self),
    {
        !self.is_hostile()
    }
}

/// Hostile creatures have more health than passive ones: every hostile kind
/// has a greater maximum health than every passive kind.
pub proof fn lemma_hostiles_outlast_passives(hostile: HollowEarthEntityKind, passive: HollowEarthEntityKind)
    requires
        spec_is_hostile(hostile),
        !spec_is_hostile(passive),
    ensures
        spec_max_health(hostile) > spec_max_health(passive),
{
}

/// Get the display name for a hollow earth entity kind.
pub fn entity_kind_name(kind: &HollowEarthEntityKind) -> (name: &'static str)
    ensures
        name@ == spec_kind_name(*kind),
{
    match kind {
        HollowEarthEntityKind::ShellCrawler => "Shell Crawler",
        HollowEarthEntityKind::FungalBloom => "Fungal Bloom",
        HollowEarthEntityKind::CoreWraith => "Core Wraith",
        HollowEarthEntityKind::CrystalSerpent => "Crystal Serpent",
        HollowEarthEntityKind::AbyssalLeviathan => "Abyssal Leviathan",
        HollowEarthEntityKind::GlowBeetle => "Glow Beetle",
        HollowEarthEntityKind::MossGrazer => "Moss Grazer",
        HollowEarthEntityKind::CaveFish => "Cave Fish",
        HollowEarthEntityKind::ShellMite => "Shell Mite",
        HollowEarthEntityKind::SporeMoth => "Spore Moth",
    }
}

} // verus!
