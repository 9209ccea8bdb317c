//! Keyboard controls during a match: held keys pan the camera, and single
//! presses launch a fleet, pick a structure or the atom bomb, or cancel.

use vstd::prelude::*;

verus! {

/// A physical key the match controls know.
#[derive(Clone, Copy, Debug, PartialEq, Eq, Structural)]
pub enum Key {
    W,
    A,
    S,
    D,
    ArrowUp,
    ArrowDown,
    ArrowLeft,
    ArrowRight,
    B,
    Q,
    Escape,
    /// A digit key of the main row.
    Digit(u8),
    /// A digit key of the number pad.
    Numpad(u8),
    /// Any other key.
    Other,
}

/// A structure that a number key selects.
#[derive(Clone, Copy, Debug, PartialEq, Eq, Structural)]
pub enum BuildChoice {
    City,
    Factory,
    Port,
    Bunker,
}

/// What a key press does besides panning.
#[derive(Clone, Copy, Debug, PartialEq, Eq, Structural)]
pub enum KeyAction {
    Nothing,
    /// Launch a fleet from the tile under the mouse.
    LaunchFleet,
    /// Select a structure to place.
    SelectBuilding(BuildChoice),
    /// Toggle the atom bomb selection (and drop any structure selection).
    ToggleAtomBomb,
    /// Cancel placement and close the map context menu.
    Cancel,
}

/// Which pan keys are held.
#[derive(Clone, Copy, Debug, PartialEq, Eq, Structural)]
pub struct PanKeys {
    pub up: bool,
    pub down: bool,
    pub left: bool,
    pub right: bool,
}

/// The digit a key stands for, on either digit row.
pub open spec fn digit_of(k: Key) -> Option<u8> {
    match k {
        Key::Digit(d) => Some(d),
        Key::Numpad(d) => Some(d),
        _ => None,
    }
}

/// What pressing `k` does.
pub open spec fn press_action(k: Key) -> KeyAction {
    match k {
        Key::B => KeyAction::LaunchFleet,
        Key::Escape | Key::Q => KeyAction::Cancel,
        _ => match digit_of(k) {
            Some(d) => if d == 1 {
                KeyAction::SelectBuilding(BuildChoice::City)
            } else if d == 2 {
                KeyAction::SelectBuilding(BuildChoice::Factory)
            } else if d == 3 {
                KeyAction::SelectBuilding(BuildChoice::Port)
            } else if d == 4 {
                KeyAction::SelectBuilding(BuildChoice::Bunker)
            } else if d == 0 {
                KeyAction::ToggleAtomBomb
            } else {
                KeyAction::Nothing
            },
            None => KeyAction::Nothing,
        },
    }
}

/// A key event during the client's life. Outside a running match (or while
/// a text field has focus) every pan key is released and nothing happens.
/// In a match, W/A/S/D and the arrows hold or release panning; a press then
/// does its action: B launches a fleet, 1–4 pick city, factory, port or
/// bunker, 0 toggles the atom bomb, Escape or Q cancels.
pub fn handle_key_event(pan: &mut PanKeys, in_match: bool, input_focused: bool, pressed: bool, key: Key) -> (a: KeyAction)
    ensures
        !in_match || input_focused ==> a == KeyAction::Nothing && *final(pan) == (PanKeys {
            up: false,
            down: false,
            left: false,
            right: false,
        }),
        in_match && !input_focused ==> {
            &&& final(pan).up == if key == Key::W || key == Key::ArrowUp { pressed } else { old(pan).up }
            &&& final(pan).down == if key == Key::S || key == Key::ArrowDown { pressed } else { old(pan).down }
            &&& final(pan).left == if key == Key::A || key == Key::ArrowLeft { pressed } else { old(pan).left }
            &&& final(pan).right == if key == Key::D || key == Key::ArrowRight { pressed } else { old(pan).right }
            &&& a == if pressed { press_action(key) } else { KeyAction::Nothing }
        },
{
    if !in_match || input_focused {
        *pan = PanKeys { up: false, down: false, left: false, right: false };
        return KeyAction::Nothing;
    }
    match key {
        Key::W | Key::ArrowUp => pan.up = pressed,
        Key::S | Key::ArrowDown => pan.down = pressed,
        Key::A | Key::ArrowLeft => pan.left = pressed,
        Key::D | Key::ArrowRight => pan.right = pressed,
        _ => {},
    }
    if !pressed {
        return KeyAction::Nothing;
    }
    let digit = match key {
        Key::Digit(d) => Some(d),
        Key::Numpad(d) => Some(d),
        _ => None,
    };
    match key {
        Key::B => KeyAction::LaunchFleet,
        Key::Escape | Key::Q => KeyAction::Cancel,
        _ => match digit {
            Some(d) => if d == 1 {
                KeyAction::SelectBuilding(BuildChoice::City)
            } else if d == 2 {
                KeyAction::SelectBuilding(BuildChoice::Factory)
            } else if d == 3 {
                KeyAction::SelectBuilding(BuildChoice::Port)
            } else if d == 4 {
                KeyAction::SelectBuilding(BuildChoice::Bunker)
            } else if d == 0 {
                KeyAction::ToggleAtomBomb
            } else {
                KeyAction::Nothing
            },
            None => KeyAction::Nothing,
        },
    }
}

} // verus!
