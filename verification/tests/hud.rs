use egui::Color32;
use hollow_earth::hud::{DepthZone, RadiationWarning, TetherHealth};

#[test]
fn test_zone_names() {
    assert_eq!(DepthZone::Surface.name(), "Surface");
    assert_eq!(DepthZone::Mid.name(), "Mid");
    assert_eq!(DepthZone::Deep.name(), "Deep");
    assert_eq!(DepthZone::Core.name(), "Core");
}

#[test]
fn test_warning_text() {
    assert_eq!(RadiationWarning::Safe.text(), "SAFE");
    assert_eq!(RadiationWarning::Lethal.text(), "LETHAL");
}

#[test]
fn test_health_colors_unique() {
    assert_ne!(TetherHealth::Healthy.color(), TetherHealth::Broken.color());
    assert_ne!(TetherHealth::Stressed.color(), TetherHealth::Critical.color());
}

#[test]
fn remaining_labels() {
    assert_eq!(RadiationWarning::Warning.text(), "WARNING");
    assert_eq!(RadiationWarning::Danger.text(), "DANGER");
    assert_eq!(TetherHealth::Healthy.text(), "OK");
    assert_eq!(TetherHealth::Stressed.text(), "STRESSED");
    assert_eq!(TetherHealth::Critical.text(), "CRITICAL");
    assert_eq!(TetherHealth::Broken.text(), "BROKEN");
}

#[test]
fn colors_are_the_documented_channels() {
    assert_eq!(DepthZone::Surface.color(), Color32::from_rgb(80, 180, 80));
    assert_eq!(DepthZone::Mid.color(), Color32::from_rgb(180, 180, 80));
    assert_eq!(DepthZone::Deep.color(), Color32::from_rgb(180, 120, 60));
    assert_eq!(DepthZone::Core.color(), Color32::from_rgb(200, 60, 60));
    assert_eq!(RadiationWarning::Safe.color(), Color32::from_rgb(80, 180, 80));
    assert_eq!(RadiationWarning::Warning.color(), Color32::from_rgb(200, 200, 60));
    assert_eq!(RadiationWarning::Danger.color(), Color32::from_rgb(200, 120, 40));
    assert_eq!(RadiationWarning::Lethal.color(), Color32::from_rgb(200, 40, 40));
    assert_eq!(TetherHealth::Critical.color(), Color32::from_rgb(200, 80, 40));
    assert_eq!(TetherHealth::Broken.color().to_array(), [100, 100, 100, 255]);
}

#[test]
fn every_level_has_its_own_label_and_color() {
    let zones = [DepthZone::Surface, DepthZone::Mid, DepthZone::Deep, DepthZone::Core];
    let warnings = [
        RadiationWarning::Safe,
        RadiationWarning::Warning,
        RadiationWarning::Danger,
        RadiationWarning::Lethal,
    ];
    let healths = [
        TetherHealth::Healthy,
        TetherHealth::Stressed,
        TetherHealth::Critical,
        TetherHealth::Broken,
    ];
    for i in 0..4 {
        for j in 0..4 {
            if i != j {
                assert_ne!(zones[i].name(), zones[j].name());
                assert_ne!(zones[i].color(), zones[j].color());
                assert_ne!(warnings[i].text(), warnings[j].text());
                assert_ne!(warnings[i].color(), warnings[j].color());
                assert_ne!(healths[i].text(), healths[j].text());
                assert_ne!(healths[i].color(), healths[j].color());
            }
        }
    }
}
