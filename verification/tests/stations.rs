use hollow_earth::stations::{MaterialType, SphereStationType, StationRequirements};
use hollow_earth::world::{CoreZone, SphereBiome};

#[test]
fn test_fungal_workbench_requirements() {
    let req = SphereStationType::FungalWorkbench.requirements();
    assert!(req.biome_restriction.is_none());
    assert!(req.zone_restriction.is_none());
    assert!(req.materials.contains(&MaterialType::FungalFiber));
    assert!(req.materials.contains(&MaterialType::ShellFragment));
}

#[test]
fn test_crystal_forge_biome_restriction() {
    let req = SphereStationType::CrystalForge.requirements();
    assert_eq!(req.biome_restriction, Some(SphereBiome::CrystalCaverns));

    // Can place in Crystal Caverns
    assert!(req.can_place(SphereBiome::CrystalCaverns, CoreZone::Safe));
    // Cannot place in other biomes
    assert!(!req.can_place(SphereBiome::MossPlains, CoreZone::Safe));
}

#[test]
fn test_core_kiln_zone_restriction() {
    let req = SphereStationType::CoreKiln.requirements();
    assert_eq!(req.zone_restriction, Some(CoreZone::Danger));

    // Can place in Danger zone
    assert!(req.can_place(SphereBiome::CoreProximity, CoreZone::Danger));
    // Cannot place in Safe zone
    assert!(!req.can_place(SphereBiome::CoreProximity, CoreZone::Safe));
}

#[test]
fn test_station_requirements_materials() {
    let req = SphereStationType::CoreKiln.requirements();
    let available = vec![
        MaterialType::CoreFragment,
        MaterialType::EnergyCrystal,
        MaterialType::PlasmaOrb,
    ];
    assert!(req.has_materials(&available));

    let missing = vec![MaterialType::CoreFragment];
    assert!(!req.has_materials(&missing));
}

#[test]
fn unrestricted_requirements_place_anywhere_and_need_nothing() {
    let req = StationRequirements::new();
    let default_req = StationRequirements::default();
    assert!(default_req.materials.is_empty() && default_req.biome_restriction.is_none());
    for biome in [
        SphereBiome::MossPlains,
        SphereBiome::FungalForest,
        SphereBiome::CrystalCaverns,
        SphereBiome::MagmaFields,
        SphereBiome::DeepChasm,
        SphereBiome::CoreProximity,
    ] {
        for zone in [CoreZone::Safe, CoreZone::Warning, CoreZone::Danger, CoreZone::Lethal] {
            assert!(req.can_place(biome, zone));
        }
    }
    assert!(req.has_materials(&[]));
}

#[test]
fn builders_set_only_their_field() {
    let req = StationRequirements::new()
        .with_biome(SphereBiome::MagmaFields)
        .with_zone(CoreZone::Lethal)
        .with_materials(vec![MaterialType::Silk, MaterialType::Silk])
        .with_materials(vec![MaterialType::Crystal]);
    assert_eq!(req.biome_restriction, Some(SphereBiome::MagmaFields));
    assert_eq!(req.zone_restriction, Some(CoreZone::Lethal));
    assert_eq!(req.materials, vec![MaterialType::Crystal]);
    assert!(req.can_place(SphereBiome::MagmaFields, CoreZone::Lethal));
    assert!(!req.can_place(SphereBiome::MagmaFields, CoreZone::Danger));
    assert!(!req.can_place(SphereBiome::DeepChasm, CoreZone::Lethal));
}

#[test]
fn more_materials_still_suffice() {
    let req = SphereStationType::FungalWorkbench.requirements();
    assert!(!req.has_materials(&[MaterialType::ShellFragment]));
    assert!(req.has_materials(&[MaterialType::ShellFragment, MaterialType::FungalFiber]));
    assert!(req.has_materials(&[
        MaterialType::Silk,
        MaterialType::ShellFragment,
        MaterialType::PlasmaOrb,
        MaterialType::FungalFiber
    ]));
}

#[test]
fn every_station_has_its_requirements() {
    let vat = SphereStationType::SpinningVat.requirements();
    assert_eq!(vat.materials, vec![MaterialType::FungalFiber]);
    assert!(vat.biome_restriction.is_none() && vat.zone_restriction.is_none());
    let forge = SphereStationType::CrystalForge.requirements();
    assert_eq!(forge.materials, vec![MaterialType::Crystal, MaterialType::CoreFragment]);
    assert!(forge.zone_restriction.is_none());
    let kiln = SphereStationType::CoreKiln.requirements();
    assert!(kiln.biome_restriction.is_none());
    let bench = SphereStationType::FungalWorkbench.requirements();
    assert_eq!(bench.materials, vec![MaterialType::FungalFiber, MaterialType::ShellFragment]);
}
