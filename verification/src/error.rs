use vstd::prelude::*;

use crate::hotkey::ListenerHotkey;

verus! {

/// The closed set of failures a listener operation can report.
#[derive(Clone, Copy, Debug, PartialEq, Eq, Structural)]
pub enum HotkeyError {
    /// The hotkey value is already bound; registering it again is refused
    /// before the backend is contacted.
    HotkeyAlreadyRegistered(ListenerHotkey),
    /// The hotkey value is not bound; there is nothing to unregister.
    HotkeyNotRegistered(ListenerHotkey),
    /// The native grab or ungrab call reported failure with this code.
    BackendApiError(u32),
    /// The worker that owns the native connection is unreachable: it has
    /// exited or the command channel is broken.
    ChannelError(),
    /// A response arrived that does not match the request in flight, or the
    /// backend handed out an identifier that is already bound: a protocol
    /// violation that is reported rather than allowed to corrupt the registry.
    Unknown,
}

} // verus!
