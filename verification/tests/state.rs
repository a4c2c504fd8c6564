use gero::grid::TerrainType;
use gero::models::{Faction, Unit, UnitType};
use gero::state::GameState;

#[test]
fn new_game_queues_every_unit_on_an_open_map() {
    let u1 = Unit::new("u1", "Unit1", UnitType::Guardsman, Faction::Imperial);
    let u2 = Unit::new("u2", "Unit2", UnitType::OrkBoy, Faction::Ork);
    let mut state = GameState::new(vec![u1, u2]);
    assert_eq!(state.units.len(), 2);
    assert_eq!(state.units[1].id, "u2");
    assert_eq!(state.map.width, 10);
    assert_eq!(state.map.height, 10);
    assert_eq!(state.map.tiles.len(), 100);
    assert!(state.map.tiles.iter().all(|t| matches!(t, TerrainType::Normal)));
    let order: Vec<&str> = state.turn_queue.initiative.iter().map(|s| s.as_str()).collect();
    assert_eq!(order, vec!["u1", "u2"]);
    assert_eq!(state.turn_queue.current_unit_id, None);
    assert_eq!(state.turn_queue.round_number, 1);
    assert!(state.environmental_effects.is_empty());
    assert_eq!(state.turn_queue.next_turn().as_deref(), Some("u1"));
}

#[test]
fn new_game_without_units_has_an_empty_queue() {
    let state = GameState::new(Vec::new());
    assert!(state.units.is_empty());
    assert!(state.turn_queue.initiative.is_empty());
}
