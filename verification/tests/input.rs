use gero::audio::AudioSystem;
use gero::input::{GameAction, InputEvent, InputHandler, Key, PointerButton, TouchPhase};

#[test]
fn keyboard_event_triggers_action() {
    let mut handler = InputHandler::new();
    let event = InputEvent::DeviceKey { pressed: true, key: Key::ArrowUp };
    assert_eq!(handler.process_event(&event), Some(GameAction::SelectUp));
    assert_eq!(handler.action_log, vec![GameAction::SelectUp]);
}

#[test]
fn mouse_event_triggers_action() {
    let mut handler = InputHandler::new();
    let event = InputEvent::MouseInput { pressed: true, button: PointerButton::Left };
    assert_eq!(handler.process_event(&event), Some(GameAction::Activate));
}

#[test]
fn touch_event_triggers_action() {
    let mut handler = InputHandler::new();
    let event = InputEvent::Touch { phase: TouchPhase::Started };
    assert_eq!(handler.process_event(&event), Some(GameAction::Activate));
}

#[test]
fn unhandled_key_is_ignored() {
    let mut handler = InputHandler::new();
    let event = InputEvent::DeviceKey { pressed: false, key: Key::Other };
    assert_eq!(handler.process_event(&event), None);
    assert!(handler.action_log.is_empty());
}

#[test]
fn menu_actions_trigger_audio() {
    let mut handler = InputHandler::new();
    let mut audio = AudioSystem::new();
    let event = InputEvent::DeviceKey { pressed: true, key: Key::Enter };
    assert_eq!(
        handler.process_event_with_audio(&event, Some(&mut audio)),
        Some(GameAction::Activate)
    );
    assert_eq!(audio.played_log, vec!["button_click"]);
}

#[test]
fn only_presses_of_known_inputs_ask_for_an_action() {
    let mut handler = InputHandler::new();
    let silent = [
        InputEvent::MouseInput { pressed: false, button: PointerButton::Left },
        InputEvent::MouseInput { pressed: true, button: PointerButton::Right },
        InputEvent::MouseInput { pressed: true, button: PointerButton::Middle },
        InputEvent::MouseInput { pressed: true, button: PointerButton::Other },
        InputEvent::Touch { phase: TouchPhase::Moved },
        InputEvent::Touch { phase: TouchPhase::Ended },
        InputEvent::Touch { phase: TouchPhase::Cancelled },
        InputEvent::DeviceKey { pressed: false, key: Key::ArrowUp },
        InputEvent::DeviceKey { pressed: false, key: Key::Enter },
        InputEvent::DeviceKey { pressed: true, key: Key::Other },
        InputEvent::Other,
    ];
    let mut audio = AudioSystem::new();
    for event in silent {
        assert_eq!(handler.process_event_with_audio(&event, Some(&mut audio)), None);
    }
    assert!(handler.action_log.is_empty());
    assert!(audio.played_log.is_empty());
    assert_eq!(
        handler.process_event(&InputEvent::DeviceKey { pressed: true, key: Key::ArrowDown }),
        Some(GameAction::SelectDown)
    );
    assert_eq!(
        handler.process_event_with_audio(
            &InputEvent::DeviceKey { pressed: true, key: Key::Enter },
            None
        ),
        Some(GameAction::Activate)
    );
    assert_eq!(handler.action_log, vec![GameAction::SelectDown, GameAction::Activate]);
}
