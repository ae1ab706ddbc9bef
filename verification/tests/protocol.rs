use hollow_earth::protocol::{entity_kind_name, HollowEarthEntityKind};

const ALL_KINDS: [HollowEarthEntityKind; 10] = [
    HollowEarthEntityKind::ShellCrawler,
    HollowEarthEntityKind::FungalBloom,
    HollowEarthEntityKind::CoreWraith,
    HollowEarthEntityKind::CrystalSerpent,
    HollowEarthEntityKind::AbyssalLeviathan,
    HollowEarthEntityKind::GlowBeetle,
    HollowEarthEntityKind::MossGrazer,
    HollowEarthEntityKind::CaveFish,
    HollowEarthEntityKind::ShellMite,
    HollowEarthEntityKind::SporeMoth,
];

#[test]
fn test_entity_kind_name() {
    assert_eq!(entity_kind_name(&HollowEarthEntityKind::ShellCrawler), "Shell Crawler");
    assert_eq!(entity_kind_name(&HollowEarthEntityKind::CoreWraith), "Core Wraith");
    assert_eq!(entity_kind_name(&HollowEarthEntityKind::GlowBeetle), "Glow Beetle");
    assert_eq!(entity_kind_name(&HollowEarthEntityKind::AbyssalLeviathan), "Abyssal Leviathan");
    assert_eq!(entity_kind_name(&HollowEarthEntityKind::SporeMoth), "Spore Moth");
}

#[test]
fn test_entity_kind_hostile() {
    assert!(HollowEarthEntityKind::ShellCrawler.is_hostile());
    assert!(HollowEarthEntityKind::FungalBloom.is_hostile());
    assert!(HollowEarthEntityKind::CoreWraith.is_hostile());
    assert!(HollowEarthEntityKind::CrystalSerpent.is_hostile());
    assert!(HollowEarthEntityKind::AbyssalLeviathan.is_hostile());

    assert!(!HollowEarthEntityKind::GlowBeetle.is_hostile());
    assert!(!HollowEarthEntityKind::MossGrazer.is_hostile());
    assert!(!HollowEarthEntityKind::CaveFish.is_hostile());
}

#[test]
fn test_entity_kind_passive() {
    assert!(HollowEarthEntityKind::GlowBeetle.is_passive());
    assert!(HollowEarthEntityKind::MossGrazer.is_passive());
    assert!(HollowEarthEntityKind::CaveFish.is_passive());
    assert!(HollowEarthEntityKind::ShellMite.is_passive());
    assert!(HollowEarthEntityKind::SporeMoth.is_passive());

    assert!(!HollowEarthEntityKind::ShellCrawler.is_passive());
    assert!(!HollowEarthEntityKind::CoreWraith.is_passive());
}

#[test]
fn every_kind_is_hostile_or_passive_but_not_both() {
    let hostile = ALL_KINDS.iter().filter(|k| k.is_hostile()).count();
    let passive = ALL_KINDS.iter().filter(|k| k.is_passive()).count();
    assert_eq!(hostile, 5);
    assert_eq!(passive, 5);
    for k in ALL_KINDS {
        assert_ne!(k.is_hostile(), k.is_passive());
    }
}

#[test]
fn remaining_kind_names() {
    assert_eq!(entity_kind_name(&HollowEarthEntityKind::FungalBloom), "Fungal Bloom");
    assert_eq!(entity_kind_name(&HollowEarthEntityKind::CrystalSerpent), "Crystal Serpent");
    assert_eq!(entity_kind_name(&HollowEarthEntityKind::MossGrazer), "Moss Grazer");
    assert_eq!(entity_kind_name(&HollowEarthEntityKind::CaveFish), "Cave Fish");
    assert_eq!(entity_kind_name(&HollowEarthEntityKind::ShellMite), "Shell Mite");
}

#[test]
fn test_entity_max_health() {
    // Hostile creatures have more health
    assert!(HollowEarthEntityKind::AbyssalLeviathan.max_health() > 100);
    assert!(HollowEarthEntityKind::CrystalSerpent.max_health() > 50);

    // Passive creatures have less health
    assert!(HollowEarthEntityKind::ShellMite.max_health() < 5);
    assert!(HollowEarthEntityKind::GlowBeetle.max_health() < 10);
}

#[test]
fn every_hostile_outlasts_every_passive() {
    for h in ALL_KINDS.iter().filter(|k| k.is_hostile()) {
        for p in ALL_KINDS.iter().filter(|k| k.is_passive()) {
            assert!(h.max_health() > p.max_health());
        }
    }
    assert_eq!(HollowEarthEntityKind::FungalBloom.max_health(), 15);
    assert_eq!(HollowEarthEntityKind::MossGrazer.max_health(), 12);
}
