//! Keys that act on the whole window, whatever has the focus.

use vstd::prelude::*;

verus! {

/// The keys that the program tells apart.
#[derive(Debug, Clone, Copy, PartialEq, Eq, Structural)]
pub enum Key {
    F12,
    /// Any other key.
    Other,
}

/// A key going down or up.
#[derive(Debug, Clone, Copy, PartialEq, Eq, Structural)]
pub struct KeyEvent {
    pub key: Key,
    /// Whether the key went down.
    pub pressed: bool,
    /// Whether the event comes from holding the key down.
    pub repeat: bool,
}

impl KeyEvent {
    /// Whether this is a fresh press of F12, the key that turns the layout
    /// debugging aid on and off.
    pub open spec fn toggles_debug(self) -> bool {
        self.key == Key::F12 && self.pressed && !self.repeat
    }
}

/// Whether any of `events` is a fresh press of F12.
pub open spec fn debug_toggled(events: Seq<KeyEvent>) -> bool {
    exists|i: int| 0 <= i < events.len() && (#[trigger] events[i]).toggles_debug()
}

/// Handle the key events of one frame: whether the debugging aid is on
/// afterwards, given whether it was on before. It changes over once if F12
/// was freshly pressed, however often.
pub fn handle_global_hotkeys(events: &Vec<KeyEvent>, debug_on_hover: bool) -> (on: bool)
    ensures
        on == if debug_toggled(events@) {
            !debug_on_hover
        } else {
            debug_on_hover
        },
{
    let mut i: usize = 0;
    while i < events.len()
        invariant
            i <= events.len(),
            forall|j: int| 0 <= j < i ==> !(#[trigger] events[j]).toggles_debug(),
        decreases events.len() - i,
    {
        let event = events[i];
        let fresh_f12 = match event.key {
            Key::F12 => event.pressed && !event.repeat,
            Key::Other => false,
        };
        if fresh_f12 {
            return !debug_on_hover;
        }
        i += 1;
    }
    debug_on_hover
}

} // verus!
