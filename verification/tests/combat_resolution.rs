use gero::combat::{resolve_attack, strike, AttackResult};
use gero::models::{AnimationType, Faction, Permille, Unit, UnitType, Weapon, WeaponTier};

fn setup_units() -> (Unit, Unit, Weapon) {
    let mut attacker = Unit::new("a", "Attacker", UnitType::Guardsman, Faction::Imperial);
    attacker.current_stats.agility = 3;
    attacker.current_stats.strength = 2;
    let mut defender = Unit::new("d", "Defender", UnitType::OrkBoy, Faction::Ork);
    defender.current_stats.toughness = 2;
    let weapon = Weapon {
        id: "w".into(),
        name: "Rifle".into(),
        tier: WeaponTier::Basic,
        damage: 3,
        accuracy: Permille { thousandths: 500 },
        range: 5,
        armor_piercing: None,
        action_point_cost: 1,
        critical_chance: Permille { thousandths: 0 },
        abilities_granted: Vec::new(),
    };
    (attacker, defender, weapon)
}

fn basic_units() -> (Unit, Unit, Weapon) {
    let mut attacker = Unit::new("a", "A", UnitType::Guardsman, Faction::Imperial);
    attacker.current_stats.agility = 4;
    attacker.current_stats.strength = 3;
    let mut defender = Unit::new("d", "D", UnitType::OrkBoy, Faction::Ork);
    defender.current_stats.toughness = 2;
    let weapon = Weapon {
        id: "w".into(),
        name: "Gun".into(),
        tier: WeaponTier::Basic,
        damage: 3,
        accuracy: Permille { thousandths: 800 },
        range: 5,
        armor_piercing: None,
        action_point_cost: 1,
        critical_chance: Permille { thousandths: 100 },
        abilities_granted: Vec::new(),
    };
    (attacker, defender, weapon)
}

#[test]
fn attack_hits() {
    let (mut a, mut d, w) = basic_units();
    let result = resolve_attack(&mut a, &w, &mut d, 5, 0);
    assert!(result.hit);
    assert!(result.damage > 0);
}

#[test]
fn attack_misses_with_low_hit_chance() {
    let (mut a, mut d, w) = setup_units();
    // High roll so it should miss
    let res = resolve_attack(&mut a, &w, &mut d, 99, 0);
    assert!(!res.hit);
    assert_eq!(res.damage, 0);
    // action points spent even on miss
    assert_eq!(a.action_points, a.current_stats.max_action - w.action_point_cost);
}

#[test]
fn critical_hit_doubles_damage() {
    let (mut a, mut d, mut w) = setup_units();
    w.damage = 2;
    let starting_hp = d.health_points;
    // roll <=10 triggers critical
    let res = resolve_attack(&mut a, &w, &mut d, 5, 0);
    assert!(res.hit);
    assert_eq!(d.health_points, starting_hp - res.damage);
    assert!(res.damage > w.damage); // should be doubled
}

#[test]
fn critical_damage_is_exactly_twice_the_base() {
    // base = max(0, 3 + 2 - 2) = 3
    let (mut a, mut d, w) = setup_units();
    let res = resolve_attack(&mut a, &w, &mut d, 10, 0);
    assert_eq!(res, AttackResult { hit: true, damage: 6 });
    assert_eq!(d.health_points, 4);
    // One above the critical threshold the damage is not doubled.
    let (mut a, mut d, w) = setup_units();
    let res = resolve_attack(&mut a, &w, &mut d, 11, 0);
    assert_eq!(res, AttackResult { hit: true, damage: 3 });
    assert_eq!(d.health_points, 7);
}

#[test]
fn damage_is_never_less_than_nothing() {
    let (mut a, mut d, w) = setup_units();
    d.current_stats.toughness = 50;
    let res = resolve_attack(&mut a, &w, &mut d, 5, 0);
    assert_eq!(res, AttackResult { hit: true, damage: 0 });
    assert_eq!(d.health_points, 10);
}

#[test]
fn attack_hits_up_to_the_hit_chance_and_not_beyond() {
    // hit chance = 3 * 10 + 0.5 * 100 - (0 * 10 + 0) = 80
    let (mut a, mut d, w) = setup_units();
    assert!(resolve_attack(&mut a, &w, &mut d, 80, 0).hit);
    let (mut a, mut d, w) = setup_units();
    assert!(!resolve_attack(&mut a, &w, &mut d, 81, 0).hit);
    // An accuracy of 0.505 makes it 80.5: still 80 hits and 81 misses.
    let (mut a, mut d, mut w) = setup_units();
    w.accuracy = Permille { thousandths: 505 };
    assert!(resolve_attack(&mut a, &w, &mut d, 80, 0).hit);
    let (mut a, mut d, mut w) = setup_units();
    w.accuracy = Permille { thousandths: 505 };
    assert!(!resolve_attack(&mut a, &w, &mut d, 81, 0).hit);
}

#[test]
fn cover_and_the_defenders_agility_lower_the_hit_chance() {
    // 80 - 5 of cover = 75
    let (mut a, mut d, w) = setup_units();
    assert!(resolve_attack(&mut a, &w, &mut d, 75, 5).hit);
    let (mut a, mut d, w) = setup_units();
    assert!(!resolve_attack(&mut a, &w, &mut d, 76, 5).hit);
    // 80 - 2 * 10 for the defender's agility = 60
    let (mut a, mut d, w) = setup_units();
    d.current_stats.agility = 2;
    assert!(resolve_attack(&mut a, &w, &mut d, 60, 0).hit);
    let (mut a, mut d, w) = setup_units();
    d.current_stats.agility = 2;
    assert!(!resolve_attack(&mut a, &w, &mut d, 61, 0).hit);
}

#[test]
fn attack_without_action_points_changes_nothing() {
    let (mut a, mut d, w) = setup_units();
    a.action_points = 0;
    let res = resolve_attack(&mut a, &w, &mut d, 5, 0);
    assert_eq!(res, AttackResult { hit: false, damage: 0 });
    assert_eq!(a.action_points, 0);
    assert_eq!(d.health_points, 10);
    assert!(matches!(a.animation_state.current_animation, AnimationType::Idle));
}

#[test]
fn attacker_shows_its_attack_hit_or_miss() {
    let (mut a, mut d, w) = setup_units();
    let res = resolve_attack(&mut a, &w, &mut d, 200, 0);
    assert!(!res.hit);
    assert!(matches!(a.animation_state.current_animation, AnimationType::Attack));
    assert_eq!(d.health_points, 10);
}

#[test]
fn health_has_no_floor() {
    let (mut a, mut d, mut w) = setup_units();
    w.damage = 100;
    d.health_points = 1;
    let res = resolve_attack(&mut a, &w, &mut d, 50, 0);
    assert_eq!(res, AttackResult { hit: true, damage: 100 });
    assert_eq!(d.health_points, -99);
}

#[test]
fn strike_takes_the_figures_of_a_weapon() {
    let (mut a, mut d, _) = setup_units();
    let res = strike(&mut a, 3, Permille { thousandths: 500 }, 2, &mut d, 5, 0);
    assert_eq!(res, AttackResult { hit: true, damage: 6 });
    assert_eq!(a.action_points, 0);
}
