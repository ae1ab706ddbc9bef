use hollow_earth::gear::{FallArrestor, RadiationShield, ShieldType};
use hollow_earth::sync::TetherLinkEvent;

#[test]
fn test_fall_arrestor_has_charges() {
    let arrestor = FallArrestor::new(3);
    assert!(arrestor.has_charges());
}

#[test]
fn test_fall_arrestor_activate() {
    let mut arrestor = FallArrestor::new(2);
    assert!(arrestor.activate());
    assert!(arrestor.is_active);
    assert_eq!(arrestor.charges, 1);
}

#[test]
fn test_fall_arrestor_no_charges() {
    let mut arrestor = FallArrestor::new(0);
    assert!(!arrestor.has_charges());
    assert!(!arrestor.activate());
}

#[test]
fn arrestor_stops_exactly_as_many_falls_as_it_has_charges() {
    let mut arrestor = FallArrestor::new(3);
    for left in (0..3).rev() {
        assert!(arrestor.activate());
        assert_eq!(arrestor.charges, left);
        arrestor.reset();
        assert!(!arrestor.is_active);
    }
    assert!(!arrestor.activate());
    assert!(!arrestor.is_active);
    assert_eq!(arrestor.charges, 0);
    let d = FallArrestor::default();
    assert_eq!(d, FallArrestor::new(0));
}

#[test]
fn test_tether_link_event() {
    let event = TetherLinkEvent::new(1, 2, true);
    assert_eq!(event.initiator_id, 1);
    assert!(event.linked);
}

#[test]
fn tether_link_event_keeps_its_fields() {
    let event = TetherLinkEvent::new(7, 9, false);
    assert_eq!(event.target_id, 9);
    assert_eq!(event.initiator_id, 7);
    assert!(!event.linked);
}

#[test]
fn test_shield_type_reduction_factors() {
    // Reduction factors are in hundredths.
    assert_eq!(ShieldType::NoShield.reduction_factor(), 0);
    assert_eq!(ShieldType::Basic.reduction_factor(), 30);
    assert_eq!(ShieldType::Advanced.reduction_factor(), 60);
    assert_eq!(ShieldType::Containment.reduction_factor(), 80);
    assert_eq!(ShieldType::Artifact.reduction_factor(), 95);
}

#[test]
fn test_radiation_shield_default() {
    let shield = RadiationShield::default();
    assert_eq!(shield.shield_type, ShieldType::NoShield);
    assert_eq!(shield.reduction_factor, 0);
}

#[test]
fn shields_carry_their_type_reduction() {
    let shields = [ShieldType::NoShield, ShieldType::Basic, ShieldType::Advanced, ShieldType::Containment, ShieldType::Artifact];
    for w in shields.windows(2) {
        assert!(w[0].reduction_factor() < w[1].reduction_factor());
    }
    for t in shields {
        let s = RadiationShield::new(t);
        assert_eq!(s.shield_type, t);
        assert_eq!(s.reduction_factor, t.reduction_factor());
        assert!(s.reduction_factor < 100);
    }
    assert_eq!(RadiationShield::none(), RadiationShield::default());
}
