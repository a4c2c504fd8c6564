use gero::combat::{CombatEncounter, CombatPhase, EnvironmentalEffect};
use gero::encounter::{begin_turn, cells_contain, find_unit, tick_effects, UnitSlot};
use gero::grid::GridMap;
use gero::models::{Armor, ArmorTier, Faction, Permille, Position, Unit, UnitType};

#[test]
fn smoke_cloud_expires() {
    let unit = Unit::new("u1", "Unit", UnitType::Guardsman, Faction::Imperial);
    let mut encounter = CombatEncounter::new(vec![unit], vec![], GridMap::new(3, 3), None);
    encounter.environmental_effects.push(EnvironmentalEffect::SmokeCloud {
        center: Position { x: 1, y: 1 },
        radius: 1,
        turns_remaining: 2,
    });

    encounter.start_turn();
    encounter.end_turn();
    assert_eq!(encounter.environmental_effects.len(), 1);
    if let EnvironmentalEffect::SmokeCloud { turns_remaining, .. } =
        &encounter.environmental_effects[0]
    {
        assert_eq!(*turns_remaining, 1);
    } else {
        panic!("wrong effect");
    }

    encounter.start_turn();
    encounter.end_turn();
    assert!(encounter.environmental_effects.is_empty());
}

#[test]
fn fire_patch_deals_damage() {
    let mut unit = Unit::new("u", "U", UnitType::Guardsman, Faction::Imperial);
    unit.grid_position = Position { x: 0, y: 0 };
    let starting_hp = unit.health_points;
    let mut encounter = CombatEncounter::new(vec![unit], vec![], GridMap::new(2, 2), None);
    encounter.environmental_effects.push(EnvironmentalEffect::FirePatch {
        grid_cells: vec![Position { x: 0, y: 0 }],
        damage_per_turn: 2,
    });

    encounter.start_turn();
    let hp_after = encounter.player_units[0].health_points;
    assert_eq!(hp_after, starting_hp - 2);
}

#[test]
fn acid_pool_reduces_agility_temporarily() {
    let mut unit = Unit::new("u", "U", UnitType::Guardsman, Faction::Imperial);
    unit.base_stats.agility = 4;
    unit.apply_equipment();
    unit.grid_position = Position { x: 0, y: 0 };
    let mut encounter = CombatEncounter::new(vec![unit], vec![], GridMap::new(2, 2), None);
    encounter.environmental_effects.push(EnvironmentalEffect::AcidPool {
        grid_cells: vec![Position { x: 0, y: 0 }],
        movement_penalty: Permille { thousandths: 500 },
    });

    encounter.start_turn();
    assert_eq!(encounter.player_units[0].current_stats.agility, 2);
    encounter.end_turn();
    assert_eq!(encounter.player_units[0].current_stats.agility, 4);
}

#[test]
fn acid_does_not_compound_from_turn_to_turn() {
    let mut unit = Unit::new("u", "U", UnitType::Guardsman, Faction::Imperial);
    unit.base_stats.agility = 8;
    let mut encounter = CombatEncounter::new(vec![unit], vec![], GridMap::new(2, 2), None);
    encounter.environmental_effects.push(EnvironmentalEffect::AcidPool {
        grid_cells: vec![Position { x: 0, y: 0 }],
        movement_penalty: Permille { thousandths: 500 },
    });
    for _ in 0..3 {
        encounter.start_turn();
        assert_eq!(encounter.player_units[0].current_stats.agility, 4);
    }
    encounter.end_turn();
    assert_eq!(encounter.player_units[0].current_stats.agility, 8);
}

#[test]
fn hazards_touch_only_units_on_their_cells() {
    let mut unit = Unit::new("u", "U", UnitType::Guardsman, Faction::Imperial);
    unit.base_stats.agility = 6;
    unit.grid_position = Position { x: 1, y: 1 };
    let effects = vec![
        EnvironmentalEffect::FirePatch {
            grid_cells: vec![Position { x: 0, y: 0 }, Position { x: 0, y: 1 }],
            damage_per_turn: 5,
        },
        EnvironmentalEffect::AcidPool {
            grid_cells: vec![Position { x: 1, y: 0 }],
            movement_penalty: Permille { thousandths: 500 },
        },
        EnvironmentalEffect::SmokeCloud {
            center: Position { x: 1, y: 1 },
            radius: 3,
            turns_remaining: 4,
        },
    ];
    begin_turn(&mut unit, &effects);
    assert_eq!(unit.health_points, 10);
    assert_eq!(unit.current_stats.agility, 6);
}

#[test]
fn hazards_apply_in_order_after_the_equipment_is_refreshed() {
    let mut unit = Unit::new("u", "U", UnitType::Guardsman, Faction::Imperial);
    unit.base_stats.agility = 9;
    unit.current_stats.agility = 100;
    unit.equipment.armor = Some(Armor {
        id: "a".into(),
        name: "Flak".into(),
        tier: ArmorTier::Flak,
        toughness_bonus: 2,
        agility_penalty: -1,
        special_properties: Vec::new(),
    });
    let here = unit.grid_position;
    let effects = vec![
        EnvironmentalEffect::FirePatch { grid_cells: vec![here], damage_per_turn: 3 },
        EnvironmentalEffect::AcidPool {
            grid_cells: vec![here],
            movement_penalty: Permille { thousandths: 500 },
        },
        EnvironmentalEffect::FirePatch { grid_cells: vec![here], damage_per_turn: 4 },
        EnvironmentalEffect::AcidPool {
            grid_cells: vec![here],
            movement_penalty: Permille { thousandths: 500 },
        },
    ];
    begin_turn(&mut unit, &effects);
    assert_eq!(unit.health_points, 3);
    // (9 - 1) * 0.5 = 4, then 4 * 0.5 = 2
    assert_eq!(unit.current_stats.agility, 2);
    assert_eq!(unit.current_stats.toughness, 2);
}

#[test]
fn smoke_ages_and_other_hazards_stay() {
    let mut effects = vec![
        EnvironmentalEffect::SmokeCloud { center: Position { x: 0, y: 0 }, radius: 1, turns_remaining: 0 },
        EnvironmentalEffect::FirePatch { grid_cells: vec![], damage_per_turn: 1 },
        EnvironmentalEffect::SmokeCloud { center: Position { x: 1, y: 0 }, radius: 2, turns_remaining: 1 },
        EnvironmentalEffect::SmokeCloud { center: Position { x: 2, y: 0 }, radius: 3, turns_remaining: 3 },
        EnvironmentalEffect::AcidPool { grid_cells: vec![], movement_penalty: Permille { thousandths: 1 } },
        EnvironmentalEffect::SmokeCloud { center: Position { x: 3, y: 0 }, radius: 4, turns_remaining: 1 },
    ];
    tick_effects(&mut effects);
    assert_eq!(effects.len(), 3);
    assert!(matches!(effects[0], EnvironmentalEffect::FirePatch { damage_per_turn: 1, .. }));
    match &effects[1] {
        EnvironmentalEffect::SmokeCloud { center, radius, turns_remaining } => {
            assert_eq!(*center, Position { x: 2, y: 0 });
            assert_eq!(*radius, 3);
            assert_eq!(*turns_remaining, 2);
        }
        _ => panic!("wrong effect"),
    }
    assert!(matches!(effects[2], EnvironmentalEffect::AcidPool { .. }));
    tick_effects(&mut effects);
    tick_effects(&mut effects);
    assert_eq!(effects.len(), 2);
    assert!(matches!(effects[0], EnvironmentalEffect::FirePatch { .. }));
    assert!(matches!(effects[1], EnvironmentalEffect::AcidPool { .. }));
}

#[test]
fn end_of_turn_discards_what_abilities_did_to_current_stats() {
    let mut unit = Unit::new("u", "U", UnitType::Guardsman, Faction::Imperial);
    unit.base_stats.strength = 3;
    let mut encounter = CombatEncounter::new(vec![unit], vec![], GridMap::new(2, 2), None);
    encounter.start_turn();
    encounter.player_units[0].current_stats.strength = 9;
    encounter.end_turn();
    assert_eq!(encounter.player_units[0].current_stats.strength, 3);
}

#[test]
fn new_encounter_queues_players_then_enemies() {
    let pa = Unit::new("pa", "Pa", UnitType::Guardsman, Faction::Imperial);
    let pb = Unit::new("pb", "Pb", UnitType::Guardsman, Faction::Imperial);
    let ea = Unit::new("ea", "Ea", UnitType::OrkBoy, Faction::Ork);
    let mut audio = gero::audio::AudioSystem::new();
    let mut encounter =
        CombatEncounter::new(vec![pa, pb], vec![ea], GridMap::new(4, 3), Some(&mut audio));
    let order: Vec<&str> = encounter.turn_order.initiative.iter().map(|s| s.as_str()).collect();
    assert_eq!(order, vec!["pa", "pb", "ea"]);
    assert_eq!(encounter.turn_order.current_unit_id, None);
    assert_eq!(encounter.turn_order.round_number, 1);
    assert!(matches!(encounter.current_phase, CombatPhase::Movement));
    assert!(encounter.environmental_effects.is_empty());
    assert_eq!(encounter.camera_state.x_offset, Permille { thousandths: 0 });
    assert_eq!(encounter.camera_state.y_offset, Permille { thousandths: 0 });
    assert_eq!(encounter.camera_state.zoom_level, Permille { thousandths: 1000 });
    assert_eq!(encounter.battlefield.width, 4);
    assert_eq!(audio.current_music.as_deref(), Some("combat"));
    assert_eq!(audio.played_log, vec!["music:combat"]);
    // The turns go round all three.
    for id in ["pa", "pb", "ea", "pa"] {
        encounter.start_turn();
        assert_eq!(encounter.turn_order.current_unit_id.as_deref(), Some(id));
        encounter.end_turn();
    }
}

#[test]
fn units_are_found_by_id_players_first() {
    let p = Unit::new("same", "P", UnitType::Guardsman, Faction::Imperial);
    let ea = Unit::new("e", "Ea", UnitType::OrkBoy, Faction::Ork);
    let eb = Unit::new("same", "Eb", UnitType::OrkBoy, Faction::Ork);
    let ec = Unit::new("e", "Ec", UnitType::OrkBoy, Faction::Ork);
    let encounter = CombatEncounter::new(vec![p], vec![ea, eb, ec], GridMap::new(2, 2), None);
    assert_eq!(encounter.locate(&"same".to_string()), Some(UnitSlot::Player(0)));
    assert_eq!(encounter.locate(&"e".to_string()), Some(UnitSlot::Enemy(0)));
    assert_eq!(encounter.locate(&"nobody".to_string()), None);
    assert_eq!(find_unit(&encounter.enemy_units, &"same".to_string()), Some(1));
    assert_eq!(find_unit(&encounter.enemy_units, &"x".to_string()), None);
}

#[test]
fn turn_of_a_unit_that_the_encounter_does_not_hold_changes_nobody() {
    let mut unit = Unit::new("u", "U", UnitType::Guardsman, Faction::Imperial);
    unit.current_stats.strength = 5;
    let mut encounter = CombatEncounter::new(vec![unit], vec![], GridMap::new(2, 2), None);
    encounter.turn_order.initiative.clear();
    encounter.turn_order.add_unit("ghost".into());
    encounter.environmental_effects.push(EnvironmentalEffect::FirePatch {
        grid_cells: vec![Position { x: 0, y: 0 }],
        damage_per_turn: 2,
    });
    encounter.start_turn();
    assert_eq!(encounter.turn_order.current_unit_id.as_deref(), Some("ghost"));
    assert_eq!(encounter.player_units[0].health_points, 10);
    encounter.end_turn();
    assert_eq!(encounter.player_units[0].current_stats.strength, 5);
}

#[test]
fn cells_are_looked_up_one_by_one() {
    let cells = vec![Position { x: 1, y: 2 }, Position { x: 3, y: 4 }];
    assert!(cells_contain(&cells, &Position { x: 3, y: 4 }));
    assert!(!cells_contain(&cells, &Position { x: 4, y: 3 }));
    assert!(!cells_contain(&Vec::new(), &Position { x: 0, y: 0 }));
}
