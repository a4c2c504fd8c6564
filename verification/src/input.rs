//! From what the window system reports to what the game acts on.

use vstd::prelude::*;
use crate::audio::AudioSystem;

verus! {

/// What a menu can be asked to do.
#[derive(Debug, Clone, Copy, PartialEq, Eq, Structural)]
pub enum GameAction {
    SelectUp,
    SelectDown,
    Activate,
}

/// A button of a pointing device.
#[derive(Debug, Clone, Copy, PartialEq, Eq, Structural)]
pub enum PointerButton {
    Left,
    Right,
    Middle,
    Other,
}

/// How far a touch has got.
#[derive(Debug, Clone, Copy, PartialEq, Eq, Structural)]
pub enum TouchPhase {
    Started,
    Moved,
    Ended,
    Cancelled,
}

/// A key, as far as the game tells keys apart.
#[derive(Debug, Clone, Copy, PartialEq, Eq, Structural)]
pub enum Key {
    ArrowUp,
    ArrowDown,
    Enter,
    Other,
}

/// What the window system reported, as far as the game reads it.
#[derive(Debug, Clone, Copy, PartialEq, Eq, Structural)]
pub enum InputEvent {
    /// A button of the pointer went down or came up over the window.
    MouseInput { pressed: bool, button: PointerButton },
    /// A finger did something on the window.
    Touch { phase: TouchPhase },
    /// A key of a keyboard went down or came up, as the device itself reports it.
    DeviceKey { pressed: bool, key: Key },
    /// Anything else.
    Other,
}

/// The action that `event` asks for, if it asks for any: pressing the left button or
/// starting a touch activates, and so does pressing Enter; pressing an arrow key
/// moves the selection.
pub open spec fn action_for(event: InputEvent) -> Option<GameAction> {
    match event {
        InputEvent::MouseInput { pressed: true, button: PointerButton::Left } => Some(
            GameAction::Activate,
        ),
        InputEvent::Touch { phase: TouchPhase::Started } => Some(GameAction::Activate),
        InputEvent::DeviceKey { pressed: true, key: Key::ArrowUp } => Some(GameAction::SelectUp),
        InputEvent::DeviceKey { pressed: true, key: Key::ArrowDown } => Some(GameAction::SelectDown),
        InputEvent::DeviceKey { pressed: true, key: Key::Enter } => Some(GameAction::Activate),
        _ => None,
    }
}

/// Turns events into actions, and keeps a log of the actions it found.
pub struct InputHandler {
    pub action_log: Vec<GameAction>,
}

impl InputHandler {
    /// A handler with an empty log.
    pub fn new() -> (handler: Self)
        ensures
            handler.action_log@ == Seq::<GameAction>::empty(),
    {
        InputHandler { action_log: Vec::new() }
    }

    /// The log after `event` has been processed.
    pub open spec fn logged(log: Seq<GameAction>, event: InputEvent) -> Seq<GameAction> {
        match action_for(event) {
            Some(action) => log.push(action),
            None => log,
        }
    }

    /// Returns the action that `event` asks for, if any, and logs it.
    pub fn process_event(&mut self, event: &InputEvent) -> (action: Option<GameAction>)
        ensures
            action == action_for(*event),
            final(self).action_log@ == Self::logged(old(self).action_log@, *event),
    {
        let action = match event {
            InputEvent::MouseInput { pressed, button } => {
                if *pressed && matches!(button, PointerButton::Left) {
                    Some(GameAction::Activate)
                } else {
                    None
                }
            },
            InputEvent::Touch { phase } => {
                if matches!(phase, TouchPhase::Started) {
                    Some(GameAction::Activate)
                } else {
                    None
                }
            },
            InputEvent::DeviceKey { pressed, key } => {
                if *pressed {
                    match key {
                        Key::ArrowUp => Some(GameAction::SelectUp),
                        Key::ArrowDown => Some(GameAction::SelectDown),
                        Key::Enter => Some(GameAction::Activate),
                        Key::Other => None,
                    }
                } else {
                    None
                }
            },
            InputEvent::Other => None,
        };
        if let Some(found) = action {
            self.action_log.push(found);
        }
        action
    }

    /// As `process_event`, and where the event asks for an action, the sound
    /// `button_click` is asked of `audio`.
    pub fn process_event_with_audio(
        &mut self,
        event: &InputEvent,
        audio: Option<&mut AudioSystem>,
    ) -> (action: Option<GameAction>)
        ensures
            action == action_for(*event),
            final(self).action_log@ == Self::logged(old(self).action_log@, *event),
            match audio {
                Some(system) => if action is Some {
                    system.cue_logged(*final(system), "button_click"@)
                } else {
                    *final(system) == *system
                },
                None => true,
            },
    {
        let action = self.process_event(event);
        if action.is_some() {
            if let Some(system) = audio {
                system.play("button_click");
            }
        }
        action
    }
}

} // verus!
