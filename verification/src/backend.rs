use vstd::prelude::*;

use crate::error::HotkeyError;
use crate::hotkey::ListenerId;

verus! {

/// The opaque platform capability behind the listener: reserve global
/// delivery of a key combination, release a reservation, and report pending
/// key-release events. Nothing is promised of its answers: the listener's
/// contracts state what holds of the registry for every reply, and a
/// deterministic backend such as [`CountingBackend`] makes the successful
/// paths observable.
///
/// An implementation over a real windowing system lives outside the verified
/// library; it typically owns a thread-confined native connection and speaks
/// to callers over a command/response channel, reporting a broken channel as
/// `HotkeyError::ChannelError`.
pub trait HotkeyBackend {
    /// Asks the platform to reserve the combination. Success hands back the
    /// native identifier under which release events and the later ungrab are
    /// correlated; failure reports the platform's error.
    fn grab(&mut self, modifiers: u32, key: u32) -> Result<ListenerId, HotkeyError>;

    /// Asks the platform to release the reservation behind the identifier.
    fn ungrab(&mut self, id: ListenerId) -> Result<(), HotkeyError>;

    /// Non-blocking poll of the platform's event source: the identifier of
    /// at most one pending key-release event.
    fn poll_event(&mut self) -> Option<ListenerId>;
}

/// The worker's reading of a native grab reply: the X protocol reports
/// failure of a grab call with a zero status, and success grants the pair of
/// native keycode and modifier state as the identifier of the new binding.
pub fn grab_outcome(status: i32, keycode: i32, modifiers: u32) -> (r: Result<
    ListenerId,
    HotkeyError,
>)
    ensures
        status == 0 ==> r == Err::<ListenerId, HotkeyError>(HotkeyError::BackendApiError(0)),
        status != 0 ==> r == Ok::<ListenerId, HotkeyError>((keycode, modifiers)),
{
    if status == 0 {
        Err(HotkeyError::BackendApiError(0))
    } else {
        Ok((keycode, modifiers))
    }
}

/// The worker's reading of a native ungrab reply: a zero status is failure,
/// anything else confirms the release.
pub fn ungrab_outcome(status: i32) -> (r: Result<(), HotkeyError>)
    ensures
        status == 0 ==> r == Err::<(), HotkeyError>(HotkeyError::BackendApiError(0)),
        status != 0 ==> r == Ok::<(), HotkeyError>(()),
{
    if status == 0 {
        Err(HotkeyError::BackendApiError(0))
    } else {
        Ok(())
    }
}

/// A deterministic in-process backend for environments without a native
/// display: every grab is granted and assigned a fresh identifier from a
/// counter, every ungrab succeeds, and no key events are ever reported.
pub struct CountingBackend {
    next_code: i32,
}

impl CountingBackend {
    /// A backend whose first grant carries native code 1.
    pub fn new() -> CountingBackend {
        CountingBackend { next_code: 1 }
    }
}

impl HotkeyBackend for CountingBackend {
    fn grab(&mut self, modifiers: u32, _key: u32) -> Result<ListenerId, HotkeyError> {
        if self.next_code == i32::MAX {
            // the counter is exhausted; report it as a backend failure
            return Err(HotkeyError::BackendApiError(0));
        }
        let code = self.next_code;
        self.next_code = self.next_code + 1;
        Ok((code, modifiers))
    }

    fn ungrab(&mut self, _id: ListenerId) -> Result<(), HotkeyError> {
        Ok(())
    }

    fn poll_event(&mut self) -> Option<ListenerId> {
        None
    }
}

} // verus!
