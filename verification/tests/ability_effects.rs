use gero::audio::AudioSystem;
use gero::combat::{modify_stats, use_ability};
use gero::models::{
    Ability, AbilityEffect, AbilityType, AnimationType, EffectType, Faction, Stats, StatsModifier,
    Unit, UnitType,
};

fn no_effect() -> AbilityEffect {
    AbilityEffect {
        damage: None,
        healing: None,
        buff: None,
        debuff: None,
        status_applied: None,
        duration: None,
    }
}

fn ability_with(effect: AbilityEffect, sound: &str) -> Ability {
    Ability {
        id: "x".into(),
        name: "X".into(),
        ability_type: AbilityType::Special,
        description: String::new(),
        action_point_cost: 1,
        cooldown: 0,
        current_cooldown: 0,
        range: 5,
        area_of_effect: None,
        effect,
        animation: AnimationType::AbilityCast,
        sound_effect_key: sound.into(),
    }
}

fn make_heal_buff_ability() -> Ability {
    Ability {
        id: "heal".into(),
        name: "Heal".into(),
        ability_type: AbilityType::Healing,
        description: String::new(),
        action_point_cost: 1,
        cooldown: 0,
        current_cooldown: 0,
        range: 5,
        area_of_effect: None,
        effect: AbilityEffect {
            damage: None,
            healing: Some(3),
            buff: Some(StatsModifier {
                strength_mod: 1,
                toughness_mod: 0,
                agility_mod: 0,
                intellect_mod: 0,
                willpower_mod: 0,
                fellowship_mod: 0,
            }),
            debuff: None,
            status_applied: None,
            duration: None,
        },
        animation: AnimationType::AbilityCast,
        sound_effect_key: String::new(),
    }
}

fn make_status_ability() -> Ability {
    Ability {
        id: "poison".into(),
        name: "Poison".into(),
        ability_type: AbilityType::RangedAttack,
        description: String::new(),
        action_point_cost: 1,
        cooldown: 0,
        current_cooldown: 0,
        range: 5,
        area_of_effect: None,
        effect: AbilityEffect {
            damage: None,
            healing: None,
            buff: None,
            debuff: None,
            status_applied: Some(EffectType::Poison),
            duration: Some(2),
        },
        animation: AnimationType::AbilityCast,
        sound_effect_key: String::new(),
    }
}

#[test]
fn heal_and_buff_increases_stats() {
    let mut user = Unit::new("u", "User", UnitType::Guardsman, Faction::Imperial);
    let mut target = Unit::new("t", "Target", UnitType::Guardsman, Faction::Imperial);
    target.health_points = 5;
    user.action_points = 2;
    user.abilities.push(make_heal_buff_ability());
    let _ = use_ability(&mut user, 0, &mut [&mut target], None).unwrap();
    assert_eq!(target.health_points, 8);
    assert_eq!(target.current_stats.strength, target.base_stats.strength + 1);
}

#[test]
fn applying_status_effect_adds_to_unit() {
    let mut user = Unit::new("u", "User", UnitType::Guardsman, Faction::Imperial);
    let mut target = Unit::new("t", "Target", UnitType::Guardsman, Faction::Imperial);
    user.action_points = 2;
    user.abilities.push(make_status_ability());
    assert!(target.status_effects.is_empty());
    let _ = use_ability(&mut user, 0, &mut [&mut target], None).unwrap();
    assert_eq!(target.status_effects.len(), 1);
    let se = &target.status_effects[0];
    assert!(matches!(se.effect_type, EffectType::Poison));
    assert_eq!(se.remaining_turns, 2);
}

#[test]
fn healing_stops_at_max_health() {
    let mut user = Unit::new("u", "User", UnitType::Guardsman, Faction::Imperial);
    let mut target = Unit::new("t", "Target", UnitType::Guardsman, Faction::Imperial);
    target.health_points = 9;
    user.abilities.push(ability_with(AbilityEffect { healing: Some(3), ..no_effect() }, ""));
    use_ability(&mut user, 0, &mut [&mut target], None).unwrap();
    assert_eq!(target.health_points, 10);
}

#[test]
fn damage_comes_off_before_healing_is_added() {
    let mut user = Unit::new("u", "User", UnitType::Guardsman, Faction::Imperial);
    let mut target = Unit::new("t", "Target", UnitType::Guardsman, Faction::Imperial);
    user.abilities.push(ability_with(
        AbilityEffect { damage: Some(15), healing: Some(2), ..no_effect() },
        "",
    ));
    use_ability(&mut user, 0, &mut [&mut target], None).unwrap();
    assert_eq!(target.health_points, -3);
}

#[test]
fn debuff_is_taken_off_current_stats_only() {
    let mut user = Unit::new("u", "User", UnitType::Guardsman, Faction::Imperial);
    let mut target = Unit::new("t", "Target", UnitType::Guardsman, Faction::Imperial);
    let down = StatsModifier {
        strength_mod: 1,
        toughness_mod: 2,
        agility_mod: 3,
        intellect_mod: 4,
        willpower_mod: 5,
        fellowship_mod: 6,
    };
    user.abilities.push(ability_with(AbilityEffect { debuff: Some(down), ..no_effect() }, ""));
    use_ability(&mut user, 0, &mut [&mut target], None).unwrap();
    assert_eq!(target.current_stats.strength, -1);
    assert_eq!(target.current_stats.toughness, -2);
    assert_eq!(target.current_stats.agility, -3);
    assert_eq!(target.current_stats.intellect, -4);
    assert_eq!(target.current_stats.willpower, -5);
    assert_eq!(target.current_stats.fellowship, -6);
    assert_eq!(target.current_stats.max_health, 10);
    assert_eq!(target.base_stats.strength, 0);
    // The next refresh of the equipment loses the adjustment.
    target.apply_equipment();
    assert_eq!(target.current_stats.strength, 0);
    assert_eq!(target.current_stats.fellowship, 0);
}

#[test]
fn status_without_duration_lasts_one_turn() {
    let mut user = Unit::new("u", "User", UnitType::Guardsman, Faction::Imperial);
    let mut target = Unit::new("t", "Target", UnitType::Guardsman, Faction::Imperial);
    user.abilities.push(ability_with(
        AbilityEffect { status_applied: Some(EffectType::Stun), ..no_effect() },
        "",
    ));
    use_ability(&mut user, 0, &mut [&mut target], None).unwrap();
    assert_eq!(target.status_effects.len(), 1);
    assert!(matches!(target.status_effects[0].effect_type, EffectType::Stun));
    assert_eq!(target.status_effects[0].remaining_turns, 1);
    assert_eq!(target.status_effects[0].magnitude, 0);
}

#[test]
fn modify_stats_adds_sign_times_modifier() {
    let mut stats = Stats {
        strength: 1,
        toughness: 2,
        agility: 3,
        intellect: 4,
        willpower: 5,
        fellowship: 6,
        max_health: 7,
        max_action: 8,
    };
    let modifier = StatsModifier {
        strength_mod: 10,
        toughness_mod: 20,
        agility_mod: 30,
        intellect_mod: 40,
        willpower_mod: 50,
        fellowship_mod: 60,
    };
    modify_stats(&mut stats, &modifier, -1);
    assert_eq!(
        stats,
        Stats {
            strength: -9,
            toughness: -18,
            agility: -27,
            intellect: -36,
            willpower: -45,
            fellowship: -54,
            max_health: 7,
            max_action: 8,
        }
    );
    modify_stats(&mut stats, &modifier, 2);
    assert_eq!(stats.strength, 11);
    assert_eq!(stats.fellowship, 66);
}

#[test]
fn sound_of_a_used_ability_is_asked_for() {
    let mut user = Unit::new("u", "User", UnitType::Guardsman, Faction::Imperial);
    let mut target = Unit::new("t", "Target", UnitType::Guardsman, Faction::Imperial);
    let mut audio = AudioSystem::new();
    user.abilities.push(ability_with(no_effect(), "zap"));
    user.abilities.push(ability_with(no_effect(), ""));
    use_ability(&mut user, 0, &mut [&mut target], Some(&mut audio)).unwrap();
    assert_eq!(audio.played_log, vec!["zap"]);
    // An ability without a sound asks for none.
    use_ability(&mut user, 1, &mut [&mut target], Some(&mut audio)).unwrap();
    assert_eq!(audio.played_log, vec!["zap"]);
    // Nor does an ability that cannot be used.
    let res = use_ability(&mut user, 0, &mut [&mut target], Some(&mut audio));
    assert!(res.is_err());
    assert_eq!(audio.played_log, vec!["zap"]);
}
