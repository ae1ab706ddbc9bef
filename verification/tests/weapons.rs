use hollow_earth::weapons::{SphereWeaponEffect, SporeGrenade};

#[test]
fn test_spore_grenade_single_use() {
    let mut grenade = SporeGrenade::new();
    assert!(grenade.is_usable());
    assert!(grenade.use_weapon());
    assert!(!grenade.is_usable());
    assert!(!grenade.use_weapon()); // Second use fails
}

#[test]
fn test_spore_grenade_stats() {
    let grenade = SporeGrenade::new();
    assert_eq!(grenade.damage, 4);
    assert_eq!(grenade.effect, SphereWeaponEffect::SporeSpread);
    assert!(!grenade.consumed);
}

#[test]
fn using_a_grenade_keeps_its_damage_and_effect() {
    let mut grenade = SporeGrenade::default();
    grenade.use_weapon();
    assert_eq!(grenade.damage, SporeGrenade::DEFAULT_DAMAGE);
    assert_eq!(grenade.effect, SphereWeaponEffect::SporeSpread);
    assert!(grenade.consumed);
    for _ in 0..3 {
        assert!(!grenade.use_weapon());
        assert!(grenade.consumed);
    }
}
