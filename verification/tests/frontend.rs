use gero::frontend::Renderer;
use gero::models::{Faction, Position, Unit, UnitType};
use gero::state::GameState;

#[test]
fn dummy_renderer_creates() {
    let renderer = Renderer::new_headless(800, 600);
    assert_eq!(renderer.width, 800);
    assert_eq!(renderer.height, 600);
}

#[test]
fn render_updates_sprite_positions() {
    let mut renderer = Renderer::new_headless(800, 600);
    let mut unit = Unit::new("u1", "Test", UnitType::Guardsman, Faction::Imperial);
    unit.grid_position = Position { x: 2, y: 3 };
    let state = GameState::new(vec![unit]);
    renderer.render_state(&state);
    assert_eq!(renderer.sprites.get("u1"), Some(&(2, 3, 0, 0)));
}

#[test]
fn render_records_draw_calls() {
    let mut renderer = Renderer::new_headless(100, 100);
    renderer.load_sprite_from_bytes("s", vec![vec![1, 2, 3]]);
    let mut unit = Unit::new("u", "U", UnitType::Guardsman, Faction::Imperial);
    unit.sprite_id = "s".into();
    unit.grid_position = Position { x: 1, y: 1 };
    renderer.render_state(&GameState::new(vec![unit]));
    assert_eq!(renderer.draw_log.len(), 1);
    assert_eq!(renderer.draw_log[0].sprite_id, "s");
    assert_eq!(renderer.draw_log[0].position, (1, 1));
    assert_eq!(renderer.draw_log[0].frame_index, 0);
}

#[test]
fn frames_are_gone_through_round_and_round() {
    let mut renderer = Renderer::new_headless(10, 10);
    renderer.load_sprite_from_bytes("walk", vec![vec![0], vec![1], vec![2]]);
    renderer.load_sprite_from_bytes("blank", vec![]);
    let mut walker = Unit::new("w", "W", UnitType::Guardsman, Faction::Imperial);
    walker.sprite_id = "walk".into();
    walker.animation_state.frame_index = 7;
    walker.grid_position = Position { x: 5, y: 6 };
    let mut blank = Unit::new("b", "B", UnitType::Guardsman, Faction::Imperial);
    blank.sprite_id = "blank".into();
    blank.animation_state.frame_index = 7;
    let unseen = Unit::new("n", "N", UnitType::Guardsman, Faction::Imperial);
    renderer.render_state(&GameState::new(vec![walker, unseen, blank]));
    assert_eq!(renderer.draw_log.len(), 2);
    assert_eq!(renderer.draw_log[0].sprite_id, "walk");
    assert_eq!(renderer.draw_log[0].frame_index, 1);
    assert_eq!(renderer.draw_log[0].position, (5, 6));
    assert_eq!(renderer.draw_log[1].sprite_id, "blank");
    assert_eq!(renderer.draw_log[1].frame_index, 0);
    assert_eq!(renderer.sprites.get("w"), Some(&(5, 6, 1, 3)));
    assert_eq!(renderer.sprites.get("n"), Some(&(0, 0, 0, 0)));
    assert_eq!(renderer.sprites.get("b"), Some(&(0, 0, 0, 0)));
}

#[test]
fn each_rendering_begins_the_draw_log_anew() {
    let mut renderer = Renderer::new_headless(10, 10);
    renderer.load_sprite_from_bytes("s", vec![vec![1]]);
    let mut unit = Unit::new("u", "U", UnitType::Guardsman, Faction::Imperial);
    unit.sprite_id = "s".into();
    let state = GameState::new(vec![unit]);
    renderer.render_state(&state);
    renderer.render_state(&state);
    assert_eq!(renderer.draw_log.len(), 1);
    renderer.render_state(&GameState::new(vec![]));
    assert!(renderer.draw_log.is_empty());
    // Records of units that are gone stay.
    assert_eq!(renderer.sprites.get("u"), Some(&(0, 0, 0, 1)));
}
