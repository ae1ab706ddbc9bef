//! World structure: biomes, core zones and their resources, shell layers,
//! and chunk coordinates on the sphere surface.

use vstd::prelude::*;

verus! {

/// Thickness of the shell in blocks.
pub const SHELL_THICKNESS: i32 = 64;

/// Size of a chunk in blocks.
pub const CHUNK_SIZE: i32 = 16;

/// Number of chunk columns around the sphere: the circumference of a circle
/// of radius 100 chunk units, divided by the chunk size and rounded up
/// (ceil(2 * PI * 100 / 16) = 40).
pub const LON_CHUNKS: i32 = 40;

/// Biome types on the sphere interior.
#[derive(Clone, Copy, Debug, PartialEq, Eq, Hash, Structural)]
pub enum SphereBiome {
    /// Lush moss-covered plains near spawn.
    MossPlains,
    /// Dense bioluminescent fungal forests.
    FungalForest,
    /// Caverns filled with glowing crystals.
    CrystalCaverns,
    /// Hot volcanic regions with lava flows.
    MagmaFields,
    /// Deep dark chasms with minimal light.
    DeepChasm,
    /// Dangerous zone near the core with radiation.
    CoreProximity,
}

/// Properties of a biome, each in hundredths of its full scale (0 to 100).
#[derive(Clone, Copy, Debug, PartialEq, Eq, Structural)]
pub struct BiomeProperties {
    /// Base ambient temperature (0 = freezing, 100 = scorching).
    pub ambient_temp: u32,
    /// Ambient light level (0 = dark, 100 = fully lit).
    pub light_level: u32,
    /// Danger rating affecting hostile spawn rates (0 to 100).
    pub danger_level: u32,
    /// Resource abundance (0 to 100).
    pub resources: u32,
}

impl BiomeProperties {
    /// Create new biome properties.
    pub fn new(ambient_temp: u32, light_level: u32, danger_level: u32, resources: u32) -> (p: Self)
        ensures
            p == (BiomeProperties { ambient_temp, light_level, danger_level, resources }),
    {
        Self { ambient_temp, light_level, danger_level, resources }
    }
}

/// The properties of each biome, in hundredths.
pub open spec fn spec_biome_properties(biome: SphereBiome) -> BiomeProperties {
    match biome {
        SphereBiome::MossPlains => BiomeProperties { ambient_temp: 50, light_level: 60, danger_level: 10, resources: 40 },
        SphereBiome::FungalForest => BiomeProperties { ambient_temp: 55, light_level: 70, danger_level: 20, resources: 60 },
        SphereBiome::CrystalCaverns => BiomeProperties { ambient_temp: 40, light_level: 80, danger_level: 30, resources: 90 },
        SphereBiome::MagmaFields => BiomeProperties { ambient_temp: 95, light_level: 50, danger_level: 70, resources: 70 },
        SphereBiome::DeepChasm => BiomeProperties { ambient_temp: 30, light_level: 10, danger_level: 60, resources: 30 },
        SphereBiome::CoreProximity => BiomeProperties { ambient_temp: 85, light_level: 90, danger_level: 100, resources: 100 },
    }
}

/// Get the properties for a given biome.
pub fn biome_properties(biome: SphereBiome) -> (p: BiomeProperties)
    ensures
        p == spec_biome_properties(biome),
{
    match biome {
        // Comfortable temperature, good bioluminescent light, very safe, moderate resources.
        SphereBiome::MossPlains => BiomeProperties::new(50, 60, 10, 40),
        // Slightly warm from decay, bright fungi, some hostiles, good resources.
        SphereBiome::FungalForest => BiomeProperties::new(55, 70, 20, 60),
        // Cool, very bright from crystals, moderate danger, excellent minerals.
        SphereBiome::CrystalCaverns => BiomeProperties::new(40, 80, 30, 90),
        // Extremely hot, dim red glow from lava, very dangerous, good rare resources.
        SphereBiome::MagmaFields => BiomeProperties::new(95, 50, 70, 70),
        // Cold, nearly pitch black, dangerous predators, sparse resources.
        SphereBiome::DeepChasm => BiomeProperties::new(30, 10, 60, 30),
        // Hot from core radiation, bright core glow, maximum danger, rarest resources.
        SphereBiome::CoreProximity => BiomeProperties::new(85, 90, 100, 100),
    }
}

/// The moss plains around spawn are the safest biome and the core's
/// surroundings the most dangerous and the richest; every property stays
/// within its full scale.
pub proof fn lemma_biome_extremes(biome: SphereBiome)
    ensures
        spec_biome_properties(SphereBiome::MossPlains).danger_level <= spec_biome_properties(biome).danger_level,
        spec_biome_properties(biome).danger_level <= spec_biome_properties(SphereBiome::CoreProximity).danger_level,
        spec_biome_properties(biome).resources <= spec_biome_properties(SphereBiome::CoreProximity).resources,
        spec_biome_properties(biome).ambient_temp <= 100,
        spec_biome_properties(biome).light_level <= 100,
        spec_biome_properties(biome).danger_level <= 100,
        spec_biome_properties(biome).resources <= 100,
{
}

/// Zones relative to the core.
#[derive(Clone, Copy, Debug, PartialEq, Eq, Hash, Structural)]
pub enum CoreZone {
    /// Beyond safe radius, no radiation effects.
    Safe,
    /// Approaching core, minor radiation warnings.
    Warning,
    /// Significant radiation damage.
    Danger,
    /// Lethal radiation, rapid death.
    Lethal,
}

/// Resources found in core regions.
#[derive(Clone, Copy, Debug, PartialEq, Eq, Hash, Structural)]
pub enum CoreResource {
    /// Fragments of the core material.
    CoreFragment,
    /// High-energy crystals.
    EnergyCrystal,
    /// Condensed plasma orbs.
    PlasmaOrb,
    /// Mysterious void essence.
    VoidEssence,
}

/// How dangerous a zone is: 0 for Safe up to 3 for Lethal.
pub open spec fn zone_rank(zone: CoreZone) -> nat {
    match zone {
        CoreZone::Safe => 0,
        CoreZone::Warning => 1,
        CoreZone::Danger => 2,
        CoreZone::Lethal => 3,
    }
}

/// All core resources, from the most common to the rarest.
pub open spec fn resource_ladder() -> Seq<CoreResource> {
    seq![
        CoreResource::CoreFragment,
        CoreResource::EnergyCrystal,
        CoreResource::PlasmaOrb,
        CoreResource::VoidEssence,
    ]
}

/// The resources of each zone.
pub open spec fn spec_core_resources(zone: CoreZone) -> Seq<CoreResource> {
    match zone {
        CoreZone::Safe => seq![],
        CoreZone::Warning => seq![CoreResource::CoreFragment],
        CoreZone::Danger => seq![
            CoreResource::CoreFragment,
            CoreResource::EnergyCrystal,
            CoreResource::PlasmaOrb,
        ],
        CoreZone::Lethal => resource_ladder(),
    }
}

/// Get the resources available in a core zone.
///
/// More dangerous zones contain rarer and more valuable resources.
pub fn core_resources(zone: CoreZone) -> (r: Vec<CoreResource>)
    ensures
        r@ == spec_core_resources(zone),
{
    match zone {
        CoreZone::Safe => Vec::new(),
        CoreZone::Warning => vec![CoreResource::CoreFragment],
        CoreZone::Danger => vec![
            CoreResource::CoreFragment,
            CoreResource::EnergyCrystal,
            CoreResource::PlasmaOrb,
        ],
        CoreZone::Lethal => vec![
            CoreResource::CoreFragment,
            CoreResource::EnergyCrystal,
            CoreResource::PlasmaOrb,
            CoreResource::VoidEssence,
        ],
    }
}

/// A more dangerous zone offers everything a safer zone offers, in the same
/// order, and more: the resources of a zone are a prefix of those of every
/// zone at least as dangerous, and a strictly more dangerous zone offers
/// strictly more resources.
pub proof fn lemma_resources_grow_with_danger(a: CoreZone, b: CoreZone)
    requires
        zone_rank(a) <= zone_rank(b),
    ensures
        spec_core_resources(a).len() <= spec_core_resources(b).len(),
        spec_core_resources(a) == spec_core_resources(b).subrange(0, spec_core_resources(a).len() as int),
        zone_rank(a) < zone_rank(b) ==> spec_core_resources(a).len() < spec_core_resources(b).len(),
{
    assert(spec_core_resources(a) =~= spec_core_resources(b).subrange(0, spec_core_resources(a).len() as int));
}

/// Every zone's resources are drawn from the ladder of resources in order,
/// from the most common one on, and only the lethal zone offers void essence.
pub proof fn lemma_resources_are_ladder_prefix(zone: CoreZone)
    ensures
        spec_core_resources(zone) == resource_ladder().subrange(0, spec_core_resources(zone).len() as int),
        spec_core_resources(zone).contains(CoreResource::VoidEssence) <==> zone == CoreZone::Lethal,
{
    assert(spec_core_resources(zone) =~= resource_ladder().subrange(0, spec_core_resources(zone).len() as int));
}

/// Layers within the shell, from surface to bedrock.
#[derive(Clone, Copy, Debug, PartialEq, Eq, Hash, Structural)]
pub enum ShellLayer {
    /// The inner surface (depth 0).
    Surface,
    /// Shallow layer (depth 1-16).
    Shallow,
    /// Mid layer (depth 17-32).
    Mid,
    /// Deep layer (depth 33-48).
    Deep,
    /// Bedrock layer near void (depth 49-64).
    Bedrock,
}

/// Types of minerals that can be found in the shell.
#[derive(Clone, Copy, Debug, PartialEq, Eq, Hash, Structural)]
pub enum MineralType {
    /// Common iron ore.
    Iron,
    /// Copper ore for electrical components.
    Copper,
    /// Glowing crystals for light sources.
    Crystal,
    /// Rare fragments from the core.
    CoreFragment,
    /// Powerful energy crystals.
    EnergyCrystal,
}

/// The layer at a depth: 0 is the surface, 1..=16 shallow, 17..=32 mid,
/// 33..=48 deep, and every other depth (below bedrock, or negative) bedrock.
pub open spec fn spec_shell_layer(depth: int) -> ShellLayer {
    if depth == 0 {
        ShellLayer::Surface
    } else if 1 <= depth <= 16 {
        ShellLayer::Shallow
    } else if 17 <= depth <= 32 {
        ShellLayer::Mid
    } else if 33 <= depth <= 48 {
        ShellLayer::Deep
    } else {
        ShellLayer::Bedrock
    }
}

/// Position of a layer from the surface down: 0 for Surface up to 4 for Bedrock.
pub open spec fn layer_rank(layer: ShellLayer) -> nat {
    match layer {
        ShellLayer::Surface => 0,
        ShellLayer::Shallow => 1,
        ShellLayer::Mid => 2,
        ShellLayer::Deep => 3,
        ShellLayer::Bedrock => 4,
    }
}

/// Determine the shell layer at a given depth.
///
/// Depth 0 is the surface, increasing toward bedrock.
pub fn shell_layer(depth: i32) -> (layer: ShellLayer)
    ensures
        layer == spec_shell_layer(depth as int),
{
    if depth == 0 {
        ShellLayer::Surface
    } else if 1 <= depth && depth <= 16 {
        ShellLayer::Shallow
    } else if 17 <= depth && depth <= 32 {
        ShellLayer::Mid
    } else if 33 <= depth && depth <= 48 {
        ShellLayer::Deep
    } else {
        ShellLayer::Bedrock
    }
}

/// Going deeper into the shell never brings one back toward the surface:
/// over non-negative depths the layer is monotone in depth.
pub proof fn lemma_shell_layer_monotone(d1: int, d2: int)
    requires
        0 <= d1 <= d2,
    ensures
        layer_rank(spec_shell_layer(d1)) <= layer_rank(spec_shell_layer(d2)),
{
}

/// The noise level, in thousandths, above which a layer holds a vacuum
/// breach: deep layers above 920, bedrock above 850; the other layers never
/// hold one.
pub open spec fn spec_breach_threshold(layer: ShellLayer) -> Option<u32> {
    match layer {
        ShellLayer::Deep => Some(920),
        ShellLayer::Bedrock => Some(850),
        _ => None,
    }
}

/// The noise level, in thousandths, above which a location in the given
/// layer holds a vacuum breach, or `None` where the layer never holds one.
pub fn vacuum_breach_threshold(layer: ShellLayer) -> (t: Option<u32>)
    ensures
        t == spec_breach_threshold(layer),
{
    match layer {
        ShellLayer::Surface | ShellLayer::Shallow | ShellLayer::Mid => None,
        ShellLayer::Deep => Some(920),
        ShellLayer::Bedrock => Some(850),
    }
}

/// Vacuum breaches only occur in the Deep and Bedrock layers, and bedrock
/// breaches at a lower noise level than the deep layer.
pub proof fn lemma_breaches_only_deep_down(layer: ShellLayer)
    ensures
        spec_breach_threshold(layer) is Some <==> layer_rank(layer) >= 3,
        spec_breach_threshold(ShellLayer::Bedrock)->0 < spec_breach_threshold(ShellLayer::Deep)->0,
{
}

/// Chunk coordinates on the sphere surface.
#[derive(Clone, Copy, Debug, PartialEq, Eq, Hash, Structural)]
pub struct SphereChunkCoords {
    /// Latitude index (north-south).
    pub lat: i32,
    /// Longitude index (east-west).
    pub lon: i32,
    /// Depth index into the shell (0 = surface, positive = deeper).
    pub depth: i32,
}

impl SphereChunkCoords {
    /// Create new sphere chunk coordinates.
    pub fn new(lat: i32, lon: i32, depth: i32) -> (c: Self)
        ensures
            c.lat == lat,
            c.lon == lon,
            c.depth == depth,
    {
        Self { lat, lon, depth }
    }
}

/// Remainder with the sign of the dividend, as Rust's `%` computes it on
/// signed integers.
pub open spec fn trunc_rem(a: int, b: int) -> int
    recommends
        b > 0,
{
    if a >= 0 {
        a % b
    } else {
        -((-a) % b)
    }
}

/// Longitude one step east, wrapping around the sphere.
pub open spec fn east_lon(lon: int) -> int {
    trunc_rem(lon + 1, LON_CHUNKS as int)
}

/// Longitude one step west, wrapping around the sphere.
pub open spec fn west_lon(lon: int) -> int {
    trunc_rem(lon - 1 + LON_CHUNKS, LON_CHUNKS as int)
}

/// The four neighbours in the order north, south, east, west.
pub open spec fn spec_adjacent(c: SphereChunkCoords) -> Seq<SphereChunkCoords> {
    seq![
        SphereChunkCoords { lat: (c.lat + 1) as i32, lon: c.lon, depth: c.depth },
        SphereChunkCoords { lat: (c.lat - 1) as i32, lon: c.lon, depth: c.depth },
        SphereChunkCoords { lat: c.lat, lon: east_lon(c.lon as int) as i32, depth: c.depth },
        SphereChunkCoords { lat: c.lat, lon: west_lon(c.lon as int) as i32, depth: c.depth },
    ]
}

/// Get the four adjacent chunks on the sphere surface.
///
/// Returns neighbors in order: north, south, east, west.
pub fn adjacent_chunks(coords: SphereChunkCoords) -> (r: Vec<SphereChunkCoords>)
    requires
        i32::MIN < coords.lat < i32::MAX,
        i32::MIN < coords.lon < i32::MAX - LON_CHUNKS,
    ensures
        r@ == spec_adjacent(coords),
{
    let north = SphereChunkCoords::new(coords.lat + 1, coords.lon, coords.depth);
    let south = SphereChunkCoords::new(coords.lat - 1, coords.lon, coords.depth);

    // Longitude wraps around
    let east_lon = (coords.lon + 1) % LON_CHUNKS;
    let west_lon = (coords.lon - 1 + LON_CHUNKS) % LON_CHUNKS;

    let east = SphereChunkCoords::new(coords.lat, east_lon, coords.depth);
    let west = SphereChunkCoords::new(coords.lat, west_lon, coords.depth);

    vec![north, south, east, west]
}

/// Stepping around the sphere: for a longitude in `0..LON_CHUNKS`, both
/// neighbours stay in `0..LON_CHUNKS`, and stepping east then west (or west
/// then east) comes back to where one started; the east neighbour of the
/// last column is column 0 and the west neighbour of column 0 is the last.
pub proof fn lemma_longitude_wraps(lon: int)
    requires
        0 <= lon < LON_CHUNKS,
    ensures
        0 <= east_lon(lon) < LON_CHUNKS,
        0 <= west_lon(lon) < LON_CHUNKS,
        west_lon(east_lon(lon)) == lon,
        east_lon(west_lon(lon)) == lon,
        lon == LON_CHUNKS - 1 ==> east_lon(lon) == 0,
        lon == 0 ==> west_lon(lon) == LON_CHUNKS - 1,
{
}

} // verus!
