//! Pointers over the map: which finger hovers, and what a press, a hold
//! or a release does.

use vstd::prelude::*;
use std::collections::HashMap;
use crate::app::state::HoverPointer;

verus! {

broadcast use vstd::std_specs::hash::group_hash_axioms;

/// The position of the only finger on the screen: `None` unless exactly
/// one finger touches it.
pub fn single_touch_position<P: Copy>(active_touches: &HashMap<u64, P>) -> (r: Option<P>)
    ensures
        r is Some <==> active_touches@.len() == 1,
        r matches Some(p) ==> active_touches@.values().contains(p),
{
    proof {
        assert(vstd::std_specs::hash::obeys_key_model::<u64>());
    }
    if active_touches.len() != 1 {
        return None;
    }
    for v in it: active_touches.values()
        invariant
            active_touches@.len() == 1,
            it.index() == 0,
            it.seq().len() == active_touches@.dom().len(),
    {
        return Some(*v);
    }
    None
}

/// How the hover pointer follows an input event: `None` leaves it as it
/// was; otherwise the new hover kind and, where one is known, the new
/// pointer position. A mouse event moves it only with a position; a touch
/// event hovers only under exactly one finger, at that finger.
pub fn hover_step<P: Copy>(pointer: HoverPointer, position: Option<P>, active_touches: &HashMap<u64, P>) -> (r: Option<(HoverPointer, Option<P>)>)
    ensures
        match pointer {
            HoverPointer::Absent => r == Some((HoverPointer::Absent, None::<P>)),
            HoverPointer::Mouse => match position {
                None => r is None,
                Some(p) => r == Some((HoverPointer::Mouse, Some(p))),
            },
            HoverPointer::Touch => if active_touches@.len() == 1 {
                r matches Some((h, Some(p))) && h == HoverPointer::Touch && active_touches@.values().contains(p)
            } else {
                r == Some((HoverPointer::Absent, None::<P>))
            },
        },
{
    match pointer {
        HoverPointer::Absent => Some((HoverPointer::Absent, None)),
        HoverPointer::Mouse => match position {
            None => None,
            Some(p) => Some((HoverPointer::Mouse, Some(p))),
        },
        HoverPointer::Touch => match single_touch_position(active_touches) {
            None => Some((HoverPointer::Absent, None)),
            Some(p) => Some((HoverPointer::Touch, Some(p))),
        },
    }
}

/// A touch held this long (in milliseconds) is a hold, not a tap.
pub const TOUCH_HOLD_MS: u128 = 300;

/// A press on the map that is still down.
#[derive(Clone, Copy, Debug, PartialEq, Eq, Structural)]
pub struct PointerPress {
    pub is_touch: bool,
    /// The press already sent an attack.
    pub attack_sent: bool,
}

/// What releasing a press on the map does.
#[derive(Clone, Copy, Debug, PartialEq, Eq, Structural)]
pub enum ReleaseAction {
    Nothing,
    /// Treat the press as a click on the tile where it started.
    Click,
    /// Open the context menu where the press started.
    ContextMenu,
}

/// What releasing a press does (see [`release_action`]).
pub open spec fn release_outcome(
    press: Option<PointerPress>,
    moved_too_far: bool,
    playing: bool,
    held_ms: u128,
    fingers_left: bool,
) -> ReleaseAction {
    match press {
        None => ReleaseAction::Nothing,
        Some(p) => if moved_too_far || !playing {
            ReleaseAction::Nothing
        } else if p.is_touch {
            if held_ms < TOUCH_HOLD_MS {
                ReleaseAction::Click
            } else if !fingers_left {
                ReleaseAction::ContextMenu
            } else {
                ReleaseAction::Nothing
            }
        } else if !p.attack_sent {
            ReleaseAction::Click
        } else {
            ReleaseAction::Nothing
        },
    }
}

/// The release of a press: nothing without a press, after a drag
/// (`moved_too_far`) or outside a match; a quick touch (shorter than
/// `TOUCH_HOLD_MS`) clicks, a longer one opens the menu once the last
/// finger is up; a mouse press clicks unless it already attacked.
pub fn release_action(
    press: Option<PointerPress>,
    moved_too_far: bool,
    playing: bool,
    held_ms: u128,
    fingers_left: bool,
) -> (r: ReleaseAction)
    ensures
        r == release_outcome(press, moved_too_far, playing, held_ms, fingers_left),
{
    let p = match press {
        Some(p) => p,
        None => {
            return ReleaseAction::Nothing;
        },
    };
    if moved_too_far || !playing {
        return ReleaseAction::Nothing;
    }
    if p.is_touch {
        if held_ms < TOUCH_HOLD_MS {
            ReleaseAction::Click
        } else if !fingers_left {
            ReleaseAction::ContextMenu
        } else {
            ReleaseAction::Nothing
        }
    } else if !p.attack_sent {
        ReleaseAction::Click
    } else {
        ReleaseAction::Nothing
    }
}

/// A held touch opens the menu (see [`hold_opens_menu`]).
pub open spec fn hold_opens(press: Option<PointerPress>, fingers: usize, playing: bool, placing: bool, held_ms: u128) -> bool {
    press matches Some(p) && (p.is_touch && fingers == 1 && playing && !placing && held_ms >= TOUCH_HOLD_MS)
}

/// A touch held still opens the context menu: a single finger, in a match,
/// with nothing being placed, for at least `TOUCH_HOLD_MS`.
pub fn hold_opens_menu(press: Option<PointerPress>, fingers: usize, playing: bool, placing: bool, held_ms: u128) -> (r: bool)
    ensures
        r == hold_opens(press, fingers, playing, placing, held_ms),
{
    match press {
        Some(p) => p.is_touch && fingers == 1 && playing && !placing && held_ms >= TOUCH_HOLD_MS,
        None => false,
    }
}

/// A tap and a hold never both fire: a release clicks a touch only before
/// the hold time, when a hold would not yet open the menu.
pub proof fn law_tap_and_hold_are_distinct(
    p: PointerPress,
    fingers: usize,
    placing: bool,
    held_ms: u128,
    fingers_left: bool,
)
    requires
        p.is_touch,
    ensures
        !(release_outcome(Some(p), false, true, held_ms, fingers_left) == ReleaseAction::Click && hold_opens(
            Some(p),
            fingers,
            true,
            placing,
            held_ms,
        )),
{
}

} // verus!
