//! Sphere crafting stations: where they may be placed and what they cost.

use vstd::prelude::*;
use crate::world::{CoreZone, SphereBiome};

verus! {

/// Types of sphere-specific crafting stations.
#[derive(Debug, Clone, Copy, PartialEq, Eq, Hash, Structural)]
pub enum SphereStationType {
    /// Basic station for crafting from fungal materials.
    FungalWorkbench,
    /// Advanced station for crystal-based items.
    CrystalForge,
    /// Endgame station for core energy items.
    CoreKiln,
    /// Station for processing fibers.
    SpinningVat,
}

/// Materials required for crafting at sphere stations.
#[derive(Debug, Clone, Copy, PartialEq, Eq, Hash, Structural)]
pub enum MaterialType {
    /// Fibers harvested from fungi.
    FungalFiber,
    /// Fragments from the shell layer.
    ShellFragment,
    /// Crystals from caverns.
    Crystal,
    /// Fragments from the core.
    CoreFragment,
    /// High-energy crystals from danger zones.
    EnergyCrystal,
    /// Condensed plasma from the core.
    PlasmaOrb,
    /// Silk from creatures.
    Silk,
}

/// Requirements for placing and using a sphere station.
#[derive(Debug, Clone)]
pub struct StationRequirements {
    /// Biome restriction (None = can be placed anywhere).
    pub biome_restriction: Option<SphereBiome>,
    /// Zone restriction (None = can be placed anywhere).
    pub zone_restriction: Option<CoreZone>,
    /// Materials required to build the station.
    pub materials: Vec<MaterialType>,
}

/// A location of the given biome and zone satisfies the restrictions: each
/// restriction is either absent or names exactly that biome or zone.
pub open spec fn spec_can_place(
    biome_restriction: Option<SphereBiome>,
    zone_restriction: Option<CoreZone>,
    biome: SphereBiome,
    zone: CoreZone,
) -> bool {
    &&& (biome_restriction matches Some(b) ==> b == biome)
    &&& (zone_restriction matches Some(z) ==> z == zone)
}

/// Every required material occurs among the available ones.
pub open spec fn spec_has_materials(required: Seq<MaterialType>, available: Seq<MaterialType>) -> bool {
    forall|i: int| 0 <= i < required.len() ==> available.contains(#[trigger] required[i])
}

impl StationRequirements {
    /// Create requirements with no restrictions.
    pub fn new() -> (r: Self)
        ensures
            r.biome_restriction.is_none(),
            r.zone_restriction.is_none(),
            r.materials@ == Seq::<MaterialType>::empty(),
    {
        Self { biome_restriction: None, zone_restriction: None, materials: Vec::new() }
    }

    /// Set biome restriction.
    pub fn with_biome(self, biome: SphereBiome) -> (r: Self)
        ensures
            r.biome_restriction == Some(biome),
            r.zone_restriction == self.zone_restriction,
            r.materials@ == self.materials@,
    {
        let mut s = self;
        s.biome_restriction = Some(biome);
        s
    }

    /// Set zone restriction.
    pub fn with_zone(self, zone: CoreZone) -> (r: Self)
        ensures
            r.biome_restriction == self.biome_restriction,
            r.zone_restriction == Some(zone),
            r.materials@ == self.materials@,
    {
        let mut s = self;
        s.zone_restriction = Some(zone);
        s
    }

    /// Add required materials: they replace the ones required before.
    pub fn with_materials(self, materials: Vec<MaterialType>) -> (r: Self)
        ensures
            r.biome_restriction == self.biome_restriction,
            r.zone_restriction == self.zone_restriction,
            r.materials@ == materials@,
    {
        let mut s = self;
        s.materials = materials;
        s
    }

    /// Check if requirements are met at a given location.
    pub fn can_place(&self, biome: SphereBiome, zone: CoreZone) -> (r: bool)
        ensures
            r == spec_can_place(self.biome_restriction, self.zone_restriction, biome, zone),
    {
        let biome_ok = match self.biome_restriction {
            Some(req) => req == biome,
            None => true,
        };
        let zone_ok = match self.zone_restriction {
            Some(req) => req == zone,
            None => true,
        };
        biome_ok && zone_ok
    }

    /// Check if player has required materials.
    pub fn has_materials(&self, available: &[MaterialType]) -> (r: bool)
        ensures
            r == spec_has_materials(self.materials@, available@),
    {
        let mut i: usize = 0;
        while i < self.materials.len()
            invariant
                i <= self.materials@.len(),
                spec_has_materials(self.materials@.subrange(0, i as int), available@),
            decreases self.materials@.len() - i,
        {
            let req = self.materials[i];
            let mut found = false;
            let mut j: usize = 0;
            while j < available.len()
                invariant
                    j <= available@.len(),
                    found == (exists|k: int| 0 <= k < j && available@[k] == req),
                decreases available@.len() - j,
            {
                if available[j] == req {
                    found = true;
                }
                j = j + 1;
            }
            if !found {
                assert(!available@.contains(self.materials@[i as int]));
                return false;
            }
            assert(spec_has_materials(self.materials@.subrange(0, i + 1), available@)) by {
                assert forall|k: int| 0 <= k < i + 1 implies available@.contains(
                    #[trigger] self.materials@.subrange(0, i + 1)[k],
                ) by {
                    if k < i {
                        assert(self.materials@.subrange(0, i + 1)[k] == self.materials@.subrange(0, i as int)[k]);
                    }
                }
            }
            i = i + 1;
        }
        assert(self.materials@.subrange(0, i as int) =~= self.materials@);
        true
    }
}

impl Default for StationRequirements {
    fn default() -> (r: Self)
        ensures
            r.biome_restriction.is_none(),
            r.zone_restriction.is_none(),
            r.materials@ == Seq::<MaterialType>::empty(),
    {
        Self::new()
    }
}

/// Requirements with no restriction can be placed anywhere.
pub proof fn lemma_unrestricted_placeable_anywhere(biome: SphereBiome, zone: CoreZone)
    ensures
        spec_can_place(None, None, biome, zone),
{
}

/// Having more materials never hurts: if every material of a stock is also
/// in a larger stock, requirements met by the first are met by the second;
/// and nothing is required when the material list is empty.
pub proof fn lemma_more_materials_suffice(
    required: Seq<MaterialType>,
    available: Seq<MaterialType>,
    larger: Seq<MaterialType>,
)
    requires
        forall|m: MaterialType| available.contains(m) ==> larger.contains(m),
        spec_has_materials(required, available),
    ensures
        spec_has_materials(required, larger),
        spec_has_materials(Seq::empty(), available),
{
    assert forall|i: int| 0 <= i < required.len() implies larger.contains(#[trigger] required[i]) by {
        assert(available.contains(required[i]));
    }
}

/// The placement restriction of each station type.
pub open spec fn station_biome(station: SphereStationType) -> Option<SphereBiome> {
    match station {
        SphereStationType::CrystalForge => Some(SphereBiome::CrystalCaverns),
        _ => None,
    }
}

/// The zone restriction of each station type.
pub open spec fn station_zone(station: SphereStationType) -> Option<CoreZone> {
    match station {
        SphereStationType::CoreKiln => Some(CoreZone::Danger),
        _ => None,
    }
}

/// The building materials of each station type.
pub open spec fn station_materials(station: SphereStationType) -> Seq<MaterialType> {
    match station {
        SphereStationType::FungalWorkbench => seq![MaterialType::FungalFiber, MaterialType::ShellFragment],
        SphereStationType::CrystalForge => seq![MaterialType::Crystal, MaterialType::CoreFragment],
        SphereStationType::CoreKiln => seq![
            MaterialType::CoreFragment,
            MaterialType::EnergyCrystal,
            MaterialType::PlasmaOrb,
        ],
        SphereStationType::SpinningVat => seq![MaterialType::FungalFiber],
    }
}

impl SphereStationType {
    /// Get the requirements of a station of this type: the crystal forge must
    /// stand in the crystal caverns, the core kiln in the danger zone.
    pub fn requirements(self) -> (r: StationRequirements)
        ensures
            r.biome_restriction == station_biome(self),
            r.zone_restriction == station_zone(self),
            r.materials@ == station_materials(self),
    {
        match self {
            SphereStationType::FungalWorkbench => StationRequirements::new().with_materials(
                vec![MaterialType::FungalFiber, MaterialType::ShellFragment],
            ),
            SphereStationType::CrystalForge => StationRequirements::new().with_biome(
                SphereBiome::CrystalCaverns,
            ).with_materials(vec![MaterialType::Crystal, MaterialType::CoreFragment]),
            SphereStationType::CoreKiln => StationRequirements::new().with_zone(CoreZone::Danger).with_materials(
                vec![MaterialType::CoreFragment, MaterialType::EnergyCrystal, MaterialType::PlasmaOrb],
            ),
            SphereStationType::SpinningVat => StationRequirements::new().with_materials(
                vec![MaterialType::FungalFiber],
            ),
        }
    }
}

/// What each station takes to build: a stock has the materials exactly when
/// it holds every one of the station's materials. The workbench takes fungal
/// fiber and shell fragments, the forge crystal and a core fragment, the kiln
/// a core fragment, an energy crystal and a plasma orb, and the vat fungal
/// fiber.
pub proof fn lemma_station_materials(stock: Seq<MaterialType>)
    ensures
        spec_has_materials(station_materials(SphereStationType::FungalWorkbench), stock) <==> (
        stock.contains(MaterialType::FungalFiber) && stock.contains(MaterialType::ShellFragment)),
        spec_has_materials(station_materials(SphereStationType::CrystalForge), stock) <==> (
        stock.contains(MaterialType::Crystal) && stock.contains(MaterialType::CoreFragment)),
        spec_has_materials(station_materials(SphereStationType::CoreKiln), stock) <==> (
        stock.contains(MaterialType::CoreFragment) && stock.contains(MaterialType::EnergyCrystal)
            && stock.contains(MaterialType::PlasmaOrb)),
        spec_has_materials(station_materials(SphereStationType::SpinningVat), stock) <==> stock.contains(
            MaterialType::FungalFiber,
        ),
{
    let w = station_materials(SphereStationType::FungalWorkbench);
    let f = station_materials(SphereStationType::CrystalForge);
    let k = station_materials(SphereStationType::CoreKiln);
    let v = station_materials(SphereStationType::SpinningVat);
    assert(w[0] == MaterialType::FungalFiber && w[1] == MaterialType::ShellFragment);
    assert(f[0] == MaterialType::Crystal && f[1] == MaterialType::CoreFragment);
    assert(k[0] == MaterialType::CoreFragment && k[1] == MaterialType::EnergyCrystal && k[2]
        == MaterialType::PlasmaOrb);
    assert(v[0] == MaterialType::FungalFiber);
}

} // verus!
