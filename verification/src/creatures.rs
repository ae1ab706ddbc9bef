//! Creature kinds of the hollow earth: restrictions on where they spawn,
//! their abilities, behaviours and drops, and the states of their AI.

use vstd::prelude::*;

verus! {

/// Biome restriction for Hollow Earth creatures.
#[derive(Clone, Copy, Debug, PartialEq, Eq, Hash, Structural)]
pub enum BiomeRestriction {
    /// Can spawn anywhere.
    Any,
    /// Only in shell region (outer surface).
    ShellOnly,
    /// Only in MossPlains biome.
    MossPlains,
    /// Only in FungalForest biome.
    FungalForest,
    /// Only in CrystalCaverns biome.
    CrystalCaverns,
    /// Only near the core (CoreProximity biome).
    CoreProximity,
    /// Only in DeepChasm biome.
    DeepChasm,
    /// Only in MagmaFields biome.
    MagmaFields,
}

/// Special abilities for Hollow Earth creatures.
#[derive(Clone, Copy, Debug, PartialEq, Eq, Hash, Structural)]
pub enum SpecialAbility {
    /// Can walk on walls and ceilings.
    WallClimb,
    /// Releases damaging spore cloud (AOE).
    SporeCloud,
    /// Emits radiation that damages nearby players passively.
    RadiationAura,
    /// Can become invisible/camouflaged.
    Stealth,
    /// Can manipulate gravity to repel players.
    GravityManip,
}

/// Types of hostile creatures in Hollow Earth.
#[derive(Clone, Copy, Debug, PartialEq, Eq, Hash, Structural)]
pub enum HollowEarthHostileType {
    /// Wall-crawling creature that drops chitin.
    ShellCrawler,
    /// Stationary trap creature that releases spore clouds.
    FungalBloom,
    /// Ethereal creature near the core with radiation aura.
    CoreWraith,
    /// Camouflaged serpent in crystal caverns.
    CrystalSerpent,
    /// Boss creature with gravity manipulation.
    AbyssalLeviathan,
}

/// Drop item from a hostile creature.
#[derive(Clone, Copy, Debug, PartialEq, Eq, Hash, Structural)]
pub enum HostileDrop {
    /// Chitin plates from ShellCrawler.
    Chitin,
    /// Fungal spores from FungalBloom.
    FungalSpore,
    /// Ethereal essence from CoreWraith.
    EtherealEssence,
    /// Crystal shard from CrystalSerpent.
    CrystalShard,
    /// Void heart from AbyssalLeviathan.
    VoidHeart,
}

/// Types of passive creatures in Hollow Earth.
#[derive(Clone, Copy, Debug, PartialEq, Eq, Hash, Structural)]
pub enum HollowEarthPassiveType {
    /// Bioluminescent beetle that provides light.
    GlowBeetle,
    /// Herd animal that grazes on moss.
    MossGrazer,
    /// Fish that lives in underground pools.
    CaveFish,
    /// Small creature that recycles organic matter.
    ShellMite,
    /// Flying insect that pollinates fungal growths.
    SporeMoth,
}

/// Drop item from a passive creature.
#[derive(Clone, Copy, Debug, PartialEq, Eq, Hash, Structural)]
pub enum PassiveDrop {
    /// Glowing gland from GlowBeetle.
    BioluminescentGland,
    /// Hide from MossGrazer.
    Hide,
    /// Meat from MossGrazer or CaveFish.
    Meat,
    /// Shell fragment from ShellMite.
    ShellFragment,
    /// Silk from SporeMoth.
    Silk,
    /// Raw fish from CaveFish.
    RawFish,
}

/// Behavior traits for passive creatures.
#[derive(Clone, Copy, Debug, PartialEq, Eq, Hash, Structural)]
pub enum PassiveBehavior {
    /// Emits light in the environment.
    LightSource,
    /// Travels in herds with others.
    HerdAnimal,
    /// Stays in water.
    WaterDweller,
    /// Breaks down organic matter.
    Recycler,
    /// Helps spread spores/pollen.
    Pollinator,
}

/// State of a hostile creature.
#[derive(Clone, Copy, Debug, PartialEq, Eq, Structural)]
pub enum HostileState {
    /// Patrolling around home area.
    Patrol,
    /// Heard/saw something, investigating.
    Alert,
    /// Actively chasing a target.
    Chase,
    /// In attack range, attacking.
    Attack,
    /// Returning home after losing target.
    Returning,
}

impl Default for HostileState {
    fn default() -> (s: Self)
        ensures
            s == HostileState::Patrol,
    {
        HostileState::Patrol
    }
}

/// State of a passive creature.
#[derive(Clone, Copy, Debug, PartialEq, Eq, Structural)]
pub enum PassiveState {
    /// Standing still, waiting.
    Idle,
    /// Moving toward a target position.
    Wandering,
    /// Fleeing from a threat (player attacked).
    Fleeing,
}

impl Default for PassiveState {
    fn default() -> (s: Self)
        ensures
            s == PassiveState::Idle,
    {
        PassiveState::Idle
    }
}

/// The single biome name a restriction admits, or `None` for `Any`.
pub open spec fn restriction_biome_name(restriction: BiomeRestriction) -> Option<Seq<char>> {
    match restriction {
        BiomeRestriction::Any => None,
        BiomeRestriction::ShellOnly => Some("Shell"@),
        BiomeRestriction::MossPlains => Some("MossPlains"@),
        BiomeRestriction::FungalForest => Some("FungalForest"@),
        BiomeRestriction::CrystalCaverns => Some("CrystalCaverns"@),
        BiomeRestriction::CoreProximity => Some("CoreProximity"@),
        BiomeRestriction::DeepChasm => Some("DeepChasm"@),
        BiomeRestriction::MagmaFields => Some("MagmaFields"@),
    }
}

/// A creature under `restriction` may spawn in the biome named `biome`:
/// anywhere for `Any`, otherwise exactly in the biome the restriction names.
pub open spec fn spec_can_spawn(restriction: BiomeRestriction, biome: Seq<char>) -> bool {
    match restriction_biome_name(restriction) {
        None => true,
        Some(name) => biome == name,
    }
}

/// Whether two strings hold the same characters.
fn str_equal(a: &str, b: &str) -> (r: bool)
    ensures
        r == (a@ == b@),
{
    let n = a.unicode_len();
    if n != b.unicode_len() {
        return false;
    }
    let mut i: usize = 0;
    while i < n
        invariant
            n == a@.len(),
            n == b@.len(),
            i <= n,
            forall|j: int| 0 <= j < i ==> a@[j] == b@[j],
        decreases n - i,
    {
        if a.get_char(i) != b.get_char(i) {
            return false;
        }
        i = i + 1;
    }
    assert(a@ =~= b@);
    true
}

/// Whether a creature under the given restriction may spawn in the biome of
/// the given name.
fn restriction_admits(restriction: BiomeRestriction, biome: &str) -> (r: bool)
    ensures
        r == spec_can_spawn(restriction, biome@),
{
    proof {
        reveal_strlit("Shell");
        reveal_strlit("MossPlains");
        reveal_strlit("FungalForest");
        reveal_strlit("CrystalCaverns");
        reveal_strlit("CoreProximity");
        reveal_strlit("DeepChasm");
        reveal_strlit("MagmaFields");
    }
    match restriction {
        BiomeRestriction::Any => true,
        BiomeRestriction::ShellOnly => str_equal(biome, "Shell"),
        BiomeRestriction::MossPlains => str_equal(biome, "MossPlains"),
        BiomeRestriction::FungalForest => str_equal(biome, "FungalForest"),
        BiomeRestriction::CrystalCaverns => str_equal(biome, "CrystalCaverns"),
        BiomeRestriction::CoreProximity => str_equal(biome, "CoreProximity"),
        BiomeRestriction::DeepChasm => str_equal(biome, "DeepChasm"),
        BiomeRestriction::MagmaFields => str_equal(biome, "MagmaFields"),
    }
}

/// A restricted creature spawns in exactly one biome: two different biome
/// names cannot both admit a creature unless its restriction is `Any`.
pub proof fn lemma_restricted_spawn_unique(restriction: BiomeRestriction, b1: Seq<char>, b2: Seq<char>)
    requires
        restriction != BiomeRestriction::Any,
        spec_can_spawn(restriction, b1),
        spec_can_spawn(restriction, b2),
    ensures
        b1 == b2,
{
}

/// Detection range in blocks of a hostile creature without an override.
pub const DETECTION_RANGE: u32 = 16;

/// Definition of a Hollow Earth hostile creature. Ranges are in whole blocks
/// and the speed multiplier in hundredths (100 is normal speed).
#[derive(Clone, Debug)]
pub struct HollowEarthHostile {
    /// Creature type.
    pub creature_type: HollowEarthHostileType,
    /// Base damage dealt per attack.
    pub damage: u32,
    /// Health points.
    pub health: u32,
    /// Biome restriction for spawning.
    pub biome_restriction: BiomeRestriction,
    /// Special abilities this creature has.
    pub abilities: Vec<SpecialAbility>,
    /// Primary drop item.
    pub primary_drop: HostileDrop,
    /// Whether this is a boss creature.
    pub is_boss: bool,
    /// Detection range override in blocks (None = use default).
    pub detection_range: Option<u32>,
    /// Movement speed multiplier in hundredths (100 = normal).
    pub speed_multiplier: u32,
    /// Whether creature is stationary (doesn't move).
    pub stationary: bool,
}

/// The fixed definition of each kind of hostile creature.
pub open spec fn hostile_definition(
    h: HollowEarthHostile,
    creature_type: HollowEarthHostileType,
    damage: u32,
    health: u32,
    biome_restriction: BiomeRestriction,
    ability: SpecialAbility,
    primary_drop: HostileDrop,
    is_boss: bool,
    detection_range: Option<u32>,
    speed_multiplier: u32,
    stationary: bool,
) -> bool {
    &&& h.creature_type == creature_type
    &&& h.damage == damage
    &&& h.health == health
    &&& h.biome_restriction == biome_restriction
    &&& h.abilities@ == seq![ability]
    &&& h.primary_drop == primary_drop
    &&& h.is_boss == is_boss
    &&& h.detection_range == detection_range
    &&& h.speed_multiplier == speed_multiplier
    &&& h.stationary == stationary
}

impl HollowEarthHostile {
    /// Create a ShellCrawler - wall-climbing creature on the shell surface.
    pub fn shell_crawler() -> (h: Self)
        ensures
            hostile_definition(h, HollowEarthHostileType::ShellCrawler, 4, 30, BiomeRestriction::ShellOnly,
                SpecialAbility::WallClimb, HostileDrop::Chitin, false, None, 120, false),
    {
        let abilities = vec![SpecialAbility::WallClimb];
        assert(abilities@ =~= seq![SpecialAbility::WallClimb]);
        Self {
            creature_type: HollowEarthHostileType::ShellCrawler,
            damage: 4,
            health: 30,
            biome_restriction: BiomeRestriction::ShellOnly,
            abilities,
            primary_drop: HostileDrop::Chitin,
            is_boss: false,
            detection_range: None,
            speed_multiplier: 120,
            stationary: false,
        }
    }

    /// Create a FungalBloom - stationary trap in fungal forests.
    pub fn fungal_bloom() -> (h: Self)
        ensures
            hostile_definition(h, HollowEarthHostileType::FungalBloom, 3, 20, BiomeRestriction::FungalForest,
                SpecialAbility::SporeCloud, HostileDrop::FungalSpore, false, Some(8), 0, true),
    {
        let abilities = vec![SpecialAbility::SporeCloud];
        assert(abilities@ =~= seq![SpecialAbility::SporeCloud]);
        Self {
            creature_type: HollowEarthHostileType::FungalBloom,
            damage: 3,
            health: 20,
            biome_restriction: BiomeRestriction::FungalForest,
            abilities,
            primary_drop: HostileDrop::FungalSpore,
            is_boss: false,
            detection_range: Some(8),
            speed_multiplier: 0,
            stationary: true,
        }
    }

    /// Create a CoreWraith - ethereal creature near the core.
    pub fn core_wraith() -> (h: Self)
        ensures
            hostile_definition(h, HollowEarthHostileType::CoreWraith, 8, 60, BiomeRestriction::CoreProximity,
                SpecialAbility::RadiationAura, HostileDrop::EtherealEssence, false, Some(24), 80, false),
    {
        let abilities = vec![SpecialAbility::RadiationAura];
        assert(abilities@ =~= seq![SpecialAbility::RadiationAura]);
        Self {
            creature_type: HollowEarthHostileType::CoreWraith,
            damage: 8,
            health: 60,
            biome_restriction: BiomeRestriction::CoreProximity,
            abilities,
            primary_drop: HostileDrop::EtherealEssence,
            is_boss: false,
            detection_range: Some(24),
            speed_multiplier: 80,
            stationary: false,
        }
    }

    /// Create a CrystalSerpent - camouflaged predator in crystal caverns.
    pub fn crystal_serpent() -> (h: Self)
        ensures
            hostile_definition(h, HollowEarthHostileType::CrystalSerpent, 6, 45, BiomeRestriction::CrystalCaverns,
                SpecialAbility::Stealth, HostileDrop::CrystalShard, false, Some(20), 150, false),
    {
        let abilities = vec![SpecialAbility::Stealth];
        assert(abilities@ =~= seq![SpecialAbility::Stealth]);
        Self {
            creature_type: HollowEarthHostileType::CrystalSerpent,
            damage: 6,
            health: 45,
            biome_restriction: BiomeRestriction::CrystalCaverns,
            abilities,
            primary_drop: HostileDrop::CrystalShard,
            is_boss: false,
            detection_range: Some(20),
            speed_multiplier: 150,
            stationary: false,
        }
    }

    /// Create an AbyssalLeviathan - boss creature in the deep chasms.
    pub fn abyssal_leviathan() -> (h: Self)
        ensures
            hostile_definition(h, HollowEarthHostileType::AbyssalLeviathan, 15, 500, BiomeRestriction::DeepChasm,
                SpecialAbility::GravityManip, HostileDrop::VoidHeart, true, Some(40), 60, false),
    {
        let abilities = vec![SpecialAbility::GravityManip];
        assert(abilities@ =~= seq![SpecialAbility::GravityManip]);
        Self {
            creature_type: HollowEarthHostileType::AbyssalLeviathan,
            damage: 15,
            health: 500,
            biome_restriction: BiomeRestriction::DeepChasm,
            abilities,
            primary_drop: HostileDrop::VoidHeart,
            is_boss: true,
            detection_range: Some(40),
            speed_multiplier: 60,
            stationary: false,
        }
    }

    /// Check if this creature can spawn in the given biome.
    pub fn can_spawn_in_biome(&self, biome: &str) -> (r: bool)
        ensures
            r == spec_can_spawn(self.biome_restriction, biome@),
    {
        restriction_admits(self.biome_restriction, biome)
    }

    /// Check if creature has a specific ability.
    pub fn has_ability(&self, ability: SpecialAbility) -> (r: bool)
        ensures
            r == self.abilities@.contains(ability),
    {
        let mut i: usize = 0;
        while i < self.abilities.len()
            invariant
                i <= self.abilities@.len(),
                forall|j: int| 0 <= j < i ==> self.abilities@[j] != ability,
            decreases self.abilities@.len() - i,
        {
            if self.abilities[i] == ability {
                assert(self.abilities@[i as int] == ability);
                return true;
            }
            i = i + 1;
        }
        false
    }

    /// Get the effective detection range: the override if there is one,
    /// else the default.
    pub fn effective_detection_range(&self) -> (r: u32)
        ensures
            r == match self.detection_range {
                Some(d) => d,
                None => DETECTION_RANGE,
            },
    {
        match self.detection_range {
            Some(d) => d,
            None => DETECTION_RANGE,
        }
    }
}

/// Definition of a Hollow Earth passive creature. The light radius is in
/// whole blocks.
#[derive(Clone, Debug)]
pub struct HollowEarthPassive {
    /// Creature type.
    pub creature_type: HollowEarthPassiveType,
    /// Health points.
    pub health: u32,
    /// Biome restriction for spawning.
    pub biome_restriction: BiomeRestriction,
    /// Primary drop item.
    pub primary_drop: PassiveDrop,
    /// Secondary drop item (optional).
    pub secondary_drop: Option<PassiveDrop>,
    /// Behavior traits.
    pub behaviors: Vec<PassiveBehavior>,
    /// Light emission radius in blocks (0 = no light).
    pub light_radius: u32,
    /// Typical herd size (1 = solitary).
    pub herd_size: u32,
}

/// The fixed definition of each kind of passive creature.
pub open spec fn passive_definition(
    p: HollowEarthPassive,
    creature_type: HollowEarthPassiveType,
    health: u32,
    biome_restriction: BiomeRestriction,
    primary_drop: PassiveDrop,
    secondary_drop: Option<PassiveDrop>,
    behaviors: Seq<PassiveBehavior>,
    light_radius: u32,
    herd_size: u32,
) -> bool {
    &&& p.creature_type == creature_type
    &&& p.health == health
    &&& p.biome_restriction == biome_restriction
    &&& p.primary_drop == primary_drop
    &&& p.secondary_drop == secondary_drop
    &&& p.behaviors@ == behaviors
    &&& p.light_radius == light_radius
    &&& p.herd_size == herd_size
}

impl HollowEarthPassive {
    /// Create a GlowBeetle - bioluminescent light source.
    pub fn glow_beetle() -> (p: Self)
        ensures
            passive_definition(p, HollowEarthPassiveType::GlowBeetle, 5, BiomeRestriction::Any,
                PassiveDrop::BioluminescentGland, None, seq![PassiveBehavior::LightSource], 8, 1),
    {
        let behaviors = vec![PassiveBehavior::LightSource];
        assert(behaviors@ =~= seq![PassiveBehavior::LightSource]);
        Self {
            creature_type: HollowEarthPassiveType::GlowBeetle,
            health: 5,
            biome_restriction: BiomeRestriction::Any,
            primary_drop: PassiveDrop::BioluminescentGland,
            secondary_drop: None,
            behaviors,
            light_radius: 8,
            herd_size: 1,
        }
    }

    /// Create a MossGrazer - herd animal in moss plains.
    pub fn moss_grazer() -> (p: Self)
        ensures
            passive_definition(p, HollowEarthPassiveType::MossGrazer, 20, BiomeRestriction::MossPlains,
                PassiveDrop::Hide, Some(PassiveDrop::Meat), seq![PassiveBehavior::HerdAnimal], 0, 5),
    {
        let behaviors = vec![PassiveBehavior::HerdAnimal];
        assert(behaviors@ =~= seq![PassiveBehavior::HerdAnimal]);
        Self {
            creature_type: HollowEarthPassiveType::MossGrazer,
            health: 20,
            biome_restriction: BiomeRestriction::MossPlains,
            primary_drop: PassiveDrop::Hide,
            secondary_drop: Some(PassiveDrop::Meat),
            behaviors,
            light_radius: 0,
            herd_size: 5,
        }
    }

    /// Create a CaveFish - water dweller in deep chasms.
    pub fn cave_fish() -> (p: Self)
        ensures
            passive_definition(p, HollowEarthPassiveType::CaveFish, 3, BiomeRestriction::DeepChasm,
                PassiveDrop::RawFish, Some(PassiveDrop::Meat), seq![PassiveBehavior::WaterDweller], 0, 8),
    {
        let behaviors = vec![PassiveBehavior::WaterDweller];
        assert(behaviors@ =~= seq![PassiveBehavior::WaterDweller]);
        Self {
            creature_type: HollowEarthPassiveType::CaveFish,
            health: 3,
            biome_restriction: BiomeRestriction::DeepChasm,
            primary_drop: PassiveDrop::RawFish,
            secondary_drop: Some(PassiveDrop::Meat),
            behaviors,
            light_radius: 0,
            herd_size: 8,
        }
    }

    /// Create a ShellMite - recycler on the shell surface.
    pub fn shell_mite() -> (p: Self)
        ensures
            passive_definition(p, HollowEarthPassiveType::ShellMite, 8, BiomeRestriction::ShellOnly,
                PassiveDrop::ShellFragment, None, seq![PassiveBehavior::Recycler], 0, 3),
    {
        let behaviors = vec![PassiveBehavior::Recycler];
        assert(behaviors@ =~= seq![PassiveBehavior::Recycler]);
        Self {
            creature_type: HollowEarthPassiveType::ShellMite,
            health: 8,
            biome_restriction: BiomeRestriction::ShellOnly,
            primary_drop: PassiveDrop::ShellFragment,
            secondary_drop: None,
            behaviors,
            light_radius: 0,
            herd_size: 3,
        }
    }

    /// Create a SporeMoth - pollinator in fungal forests.
    pub fn spore_moth() -> (p: Self)
        ensures
            passive_definition(p, HollowEarthPassiveType::SporeMoth, 4, BiomeRestriction::FungalForest,
                PassiveDrop::Silk, None, seq![PassiveBehavior::Pollinator, PassiveBehavior::LightSource], 3, 1),
    {
        let behaviors = vec![PassiveBehavior::Pollinator, PassiveBehavior::LightSource];
        assert(behaviors@ =~= seq![PassiveBehavior::Pollinator, PassiveBehavior::LightSource]);
        Self {
            creature_type: HollowEarthPassiveType::SporeMoth,
            health: 4,
            biome_restriction: BiomeRestriction::FungalForest,
            primary_drop: PassiveDrop::Silk,
            secondary_drop: None,
            behaviors,
            light_radius: 3,
            herd_size: 1,
        }
    }

    /// Check if this creature can spawn in the given biome.
    pub fn can_spawn_in_biome(&self, biome: &str) -> (r: bool)
        ensures
            r == spec_can_spawn(self.biome_restriction, biome@),
    {
        restriction_admits(self.biome_restriction, biome)
    }

    /// Check if creature has a specific behavior.
    pub fn has_behavior(&self, behavior: PassiveBehavior) -> (r: bool)
        ensures
            r == self.behaviors@.contains(behavior),
    {
        let mut i: usize = 0;
        while i < self.behaviors.len()
            invariant
                i <= self.behaviors@.len(),
                forall|j: int| 0 <= j < i ==> self.behaviors@[j] != behavior,
            decreases self.behaviors@.len() - i,
        {
            if self.behaviors[i] == behavior {
                assert(self.behaviors@[i as int] == behavior);
                return true;
            }
            i = i + 1;
        }
        false
    }

    /// Check if creature emits light.
    pub fn emits_light(&self) -> (r: bool)
        ensures
            r == (self.light_radius > 0),
    {
        self.light_radius > 0
    }

    /// Check if creature is a herd animal.
    pub fn is_herd_animal(&self) -> (r: bool)
        ensures
            r == (self.herd_size > 1),
    {
        self.herd_size > 1
    }
}

} // verus!
