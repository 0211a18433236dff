use vstd::prelude::*;
use crate::controls::{action_for_key, AppAction, KeyCode};

verus! {

/// Whether a key went down or came up.
#[derive(Debug, Clone, Copy, PartialEq, Eq, Structural)]
pub enum KeyState {
    Pressed,
    Released,
}

/// What the window system hands the main loop, reduced to what the loop
/// looks at.
#[derive(Debug, Clone, Copy, PartialEq, Eq, Structural)]
pub enum LoopEvent {
    /// The user asked to close the window.
    CloseRequested,
    /// A key changed state; `key` is absent when the key has no symbolic name.
    KeyboardInput { key: Option<KeyCode>, state: KeyState },
    /// All pending input has been handled: time to render a frame.
    MainEventsCleared,
    /// Anything else (resizes, mouse motion, redraw requests, ...).
    Other,
}

/// What the main loop does in answer to one event.
#[derive(Debug, Clone, Copy, PartialEq, Eq, Structural)]
pub enum LoopCommand {
    /// Keep polling for events.
    Poll,
    /// Leave the loop and end the application.
    Exit,
    /// Keep polling, and draw one frame with the camera's current matrix.
    DrawFrame,
}

/// The loop exits when the window is closed or Escape is pressed, draws when
/// the events of a frame have been handled, and otherwise keeps polling.
pub open spec fn command_for(event: LoopEvent) -> LoopCommand {
    match event {
        LoopEvent::CloseRequested => LoopCommand::Exit,
        LoopEvent::KeyboardInput { key, state } => {
            if key == Some(KeyCode::Escape) && state == KeyState::Pressed {
                LoopCommand::Exit
            } else {
                LoopCommand::Poll
            }
        },
        LoopEvent::MainEventsCleared => LoopCommand::DrawFrame,
        LoopEvent::Other => LoopCommand::Poll,
    }
}

/// One step of the main loop: the command for the event just received.
pub fn next_command(event: &LoopEvent) -> (command: LoopCommand)
    ensures
        command == command_for(*event),
{
    match event {
        LoopEvent::CloseRequested => LoopCommand::Exit,
        LoopEvent::KeyboardInput { key: Some(KeyCode::Escape), state: KeyState::Pressed } => {
            LoopCommand::Exit
        },
        LoopEvent::KeyboardInput { .. } => LoopCommand::Poll,
        LoopEvent::MainEventsCleared => LoopCommand::DrawFrame,
        LoopEvent::Other => LoopCommand::Poll,
    }
}

/// A key press ends the main loop exactly when `handle_keyboard` answers
/// `Exit` for that key; releasing a key, or a key without a name, never does.
pub proof fn lemma_key_press_exit_agrees_with_controls(key: KeyCode, state: KeyState)
    ensures
        (command_for(LoopEvent::KeyboardInput { key: Some(key), state: KeyState::Pressed })
            == LoopCommand::Exit) <==> (action_for_key(key) == AppAction::Exit),
        command_for(LoopEvent::KeyboardInput { key: Some(key), state: KeyState::Released })
            == LoopCommand::Poll,
        command_for(LoopEvent::KeyboardInput { key: None, state }) == LoopCommand::Poll,
{
}

/// Only two events end the loop: a close request and a press of Escape;
/// and a frame is drawn for exactly one kind of event.
pub proof fn lemma_exit_and_draw_events(event: LoopEvent)
    ensures
        (command_for(event) == LoopCommand::Exit) <==> (event == LoopEvent::CloseRequested
            || event == LoopEvent::KeyboardInput {
            key: Some(KeyCode::Escape),
            state: KeyState::Pressed,
        }),
        (command_for(event) == LoopCommand::DrawFrame) <==> (event == LoopEvent::MainEventsCleared),
{
}

} // verus!
