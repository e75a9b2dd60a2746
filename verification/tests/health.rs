use platformer_core::health::{Damage, DamageFactor, Heal, HealFactor, Health};

#[test]
fn new_health_starts_full() {
    let h = Health::new(100);
    assert_eq!(h.maximum, 100);
    assert_eq!(h.current, 100);
}

#[test]
fn with_current_health_clamps_to_maximum() {
    let h = Health::new(100).with_current_health(250);
    assert_eq!(h.current, 100);
    let h = Health::new(100).with_current_health(100);
    assert_eq!(h.current, 100);
    let h = Health::new(100).with_current_health(30);
    assert_eq!(h.current, 30);
}

#[test]
fn lesser_damage_is_subtracted() {
    let mut h = Health::new(100);
    let died = h.apply_damage(30);
    assert!(!died);
    assert_eq!(h.current, 70);
    assert_eq!(h.maximum, 100);
}

#[test]
fn damage_at_or_above_current_health_kills() {
    let mut h = Health::new(100).with_current_health(40);
    let died = h.apply_damage(40);
    assert!(died);
    assert_eq!(h.current, 0);

    let mut h = Health::new(100).with_current_health(40);
    let died = h.apply_damage(200);
    assert!(died);
    assert_eq!(h.current, 0);
}

#[test]
fn heal_is_clamped_to_maximum() {
    let mut h = Health::new(100).with_current_health(90);
    h.apply_heal(30);
    assert_eq!(h.current, 100);

    let mut h = Health::new(100).with_current_health(50);
    h.apply_heal(20);
    assert_eq!(h.current, 70);
}

#[test]
fn zero_maximum_health_dies_of_any_damage() {
    let mut h = Health::new(0);
    assert_eq!(h.current, 0);
    let died = h.apply_damage(0);
    assert!(died);
    assert_eq!(h.current, 0);
    h.apply_heal(5);
    assert_eq!(h.current, 0);
}

#[test]
fn extreme_values_do_not_overflow() {
    let mut h = Health::new(u32::MAX);
    let died = h.apply_damage(1);
    assert!(!died);
    assert_eq!(h.current, u32::MAX - 1);
    h.apply_heal(u32::MAX);
    assert_eq!(h.current, u32::MAX);
}

#[test]
fn factor_components_carry_their_values() {
    assert_eq!(Damage::new(12).value, 12);
    assert_eq!(DamageFactor::new(3).value, 3);
    assert_eq!(Heal::new(8).value, 8);
    assert_eq!(HealFactor::new(2).value, 2);
}
