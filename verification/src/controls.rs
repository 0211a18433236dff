use vstd::prelude::*;

verus! {

/// What the main loop does after a key is handled.
#[derive(Debug, Clone, Copy, PartialEq, Eq, Structural)]
pub enum AppAction {
    Exit,
    Continue,
}

/// The symbolic name of a keyboard key, one variant for each key that the
/// windowing layer reports (digits over the letters, letters, function keys,
/// navigation, numpad, media and modifier keys).
#[derive(Debug, Clone, Copy, PartialEq, Eq, Structural)]
pub enum KeyCode {
    Key1, Key2, Key3, Key4, Key5, Key6, Key7, Key8, Key9, Key0, A, B, C, D, E, F, G, H,
    I, J, K, L, M, N, O, P, Q, R, S, T, U, V, W, X, Y, Z, Escape, F1, F2, F3, F4, F5,
    F6, F7, F8, F9, F10, F11, F12, F13, F14, F15, F16, F17, F18, F19, F20, F21, F22, F23,
    F24, Snapshot, Scroll, Pause, Insert, Home, Delete, End, PageDown, PageUp, Left, Up,
    Right, Down, Back, Return, Space, Compose, Caret, Numlock, Numpad0, Numpad1, Numpad2,
    Numpad3, Numpad4, Numpad5, Numpad6, Numpad7, Numpad8, Numpad9, NumpadAdd, NumpadDivide,
    NumpadDecimal, NumpadComma, NumpadEnter, NumpadEquals, NumpadMultiply, NumpadSubtract,
    AbntC1, AbntC2, Apostrophe, Apps, Asterisk, At, Ax, Backslash, Calculator, Capital,
    Colon, Comma, Convert, Equals, Grave, Kana, Kanji, LAlt, LBracket, LControl, LShift,
    LWin, Mail, MediaSelect, MediaStop, Minus, Mute, MyComputer, NavigateForward, NavigateBackward,
    NextTrack, NoConvert, OEM102, Period, PlayPause, Plus, Power, PrevTrack, RAlt, RBracket,
    RControl, RShift, RWin, Semicolon, Slash, Sleep, Stop, Sysrq, Tab, Underline, Unlabeled,
    VolumeDown, VolumeUp, Wake, WebBack, WebFavorites, WebForward, WebHome, WebRefresh,
    WebSearch, WebStop, Yen, Copy, Paste, Cut,
}

/// The action a key press asks for: Escape ends the application, every other
/// key lets it go on.
pub open spec fn action_for_key(keycode: KeyCode) -> AppAction {
    if keycode == KeyCode::Escape {
        AppAction::Exit
    } else {
        AppAction::Continue
    }
}

/// Decides what a pressed key means for the main loop.
pub fn handle_keyboard(keycode: KeyCode) -> (action: AppAction)
    ensures
        action == action_for_key(keycode),
{
    match keycode {
        KeyCode::Escape => AppAction::Exit,
        _ => AppAction::Continue,
    }
}

} // verus!
