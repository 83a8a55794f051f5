use vstd::prelude::*;

verus! {

/// The logical identity of a global shortcut: a modifier bitmask together
/// with a key code. Two hotkeys are equal exactly when both fields match.
#[derive(Clone, Copy, Debug, PartialEq, Eq, Structural)]
pub struct ListenerHotkey {
    pub modifiers: u32,
    pub key: u32,
}

impl ListenerHotkey {
    /// Builds a hotkey from a modifier bitmask and a key code. No validation
    /// is performed: an impossible combination surfaces later as a failure of
    /// the native grab call.
    pub fn new(modifiers: u32, key: u32) -> (r: ListenerHotkey)
        ensures
            r.modifiers == modifiers,
            r.key == key,
    {
        ListenerHotkey { modifiers, key }
    }
}

/// The opaque handle a successful native grab hands back; in the X11 backend
/// it is the pair of native keycode and modifier state. It keys the registry
/// and correlates release events and ungrab calls with their grab.
pub type ListenerId = (i32, u32);

} // verus!
