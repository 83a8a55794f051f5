use vstd::prelude::*;

use crate::backend::HotkeyBackend;
use crate::callback::HotkeyCallback;
use crate::error::HotkeyError;
use crate::hotkey::{ListenerHotkey, ListenerId};
use crate::registry::{Entry, Registry, has_hotkey, has_id, hotkeys_of, index_of_hotkey};

verus! {

/// The object an application holds: the facade over the binding registry and
/// the native backend. It serializes every native interaction through the
/// backend, keeps the registry consistent with the grants the backend
/// confirmed, and never holds two bindings for one hotkey value or one native
/// identifier.
///
/// The facade assumes a single logical caller sequence per listener; its
/// registry state is the sequence of bindings `self@`, in insertion order.
#[verifier::reject_recursive_types(C)]
pub struct Listener<B, C> {
    backend: B,
    registry: Registry<C>,
}

impl<B, C> View for Listener<B, C> {
    type V = Seq<Entry<C>>;

    closed spec fn view(&self) -> Seq<Entry<C>> {
        self.registry@
    }
}

impl<B: HotkeyBackend, C> Listener<B, C> {
    /// A listener over the given backend, holding no bindings.
    pub fn new(backend: B) -> (r: Listener<B, C>)
        ensures
            r@ == Seq::<Entry<C>>::empty(),
    {
        Listener { backend, registry: Registry::new() }
    }

    /// Applies the backend's reply to a grab request: the second half of a
    /// registration, split out so that the outcome is pinned for every reply
    /// the backend can give. A grant under a fresh identifier is recorded and
    /// succeeds; a grant under an identifier that is already bound would
    /// break the registry's key invariant, so it is rejected as a protocol
    /// violation; a backend error is returned untouched and records nothing.
    pub fn complete_register(
        &mut self,
        hotkey: ListenerHotkey,
        callback: C,
        reply: Result<ListenerId, HotkeyError>,
    ) -> (r: Result<(), HotkeyError>)
        requires
            !has_hotkey(old(self)@, hotkey),
        ensures
            match reply {
                Ok(id) => if has_id(old(self)@, id) {
                    r == Err::<(), HotkeyError>(HotkeyError::Unknown) && final(self)@ == old(self)@
                } else {
                    r == Ok::<(), HotkeyError>(()) && final(self)@ == old(self)@.push(
                        (Entry { id, hotkey, callback }),
                    )
                },
                Err(e) => r == Err::<(), HotkeyError>(e) && final(self)@ == old(self)@,
            },
    {
        match reply {
            Ok(id) => {
                if self.registry.contains_id(id) {
                    Err(HotkeyError::Unknown)
                } else {
                    self.registry.insert(id, hotkey, callback);
                    Ok(())
                }
            },
            Err(e) => Err(e),
        }
    }

    /// Registers a hotkey: a hotkey value that is already bound is refused
    /// before the backend is contacted; otherwise the backend is asked for a
    /// grab and its reply decides. On success the new binding is appended; on
    /// any failure the bindings are exactly as they were.
    pub fn register_hotkey(&mut self, hotkey: ListenerHotkey, callback: C) -> (r: Result<
        (),
        HotkeyError,
    >)
        ensures
            has_hotkey(old(self)@, hotkey) ==> r == Err::<(), HotkeyError>(
                HotkeyError::HotkeyAlreadyRegistered(hotkey),
            ) && final(self)@ == old(self)@,
            !has_hotkey(old(self)@, hotkey) && r is Ok ==> exists|id: ListenerId|
                !has_id(old(self)@, id) && final(self)@ == old(self)@.push(
                    (Entry { id, hotkey, callback }),
                ),
            !has_hotkey(old(self)@, hotkey) && r is Err ==> final(self)@ == old(self)@,
    {
        if self.registry.contains_hotkey(hotkey) {
            return Err(HotkeyError::HotkeyAlreadyRegistered(hotkey));
        }
        let reply = self.backend.grab(hotkey.modifiers, hotkey.key);
        self.complete_register(hotkey, callback, reply)
    }

    /// Unregisters a hotkey: a hotkey value that is not bound is refused
    /// before the backend is contacted. Otherwise its binding is dropped from
    /// the registry — the callback's ownership ends here — and only then is
    /// the backend asked to release the grab; the reply decides the returned
    /// result but the removal is not rolled back on a native failure.
    pub fn unregister_hotkey(&mut self, hotkey: ListenerHotkey) -> (r: Result<(), HotkeyError>)
        ensures
            !has_hotkey(old(self)@, hotkey) ==> r == Err::<(), HotkeyError>(
                HotkeyError::HotkeyNotRegistered(hotkey),
            ) && final(self)@ == old(self)@,
            has_hotkey(old(self)@, hotkey) ==> final(self)@ == old(self)@.remove(
                index_of_hotkey(old(self)@, hotkey),
            ),
    {
        let found = self.registry.find_native_id_for(hotkey);
        match found {
            None => Err(HotkeyError::HotkeyNotRegistered(hotkey)),
            Some(id) => {
                let removed = self.registry.remove(id);
                match removed {
                    Some(_callback) => self.backend.ungrab(id),
                    // the identifier was just looked up, so its binding cannot
                    // be missing; reported as a protocol violation rather than
                    // a panic
                    None => Err(HotkeyError::Unknown),
                }
            },
        }
    }

    /// The currently bound hotkey values, in insertion order.
    pub fn registered_hotkeys(&self) -> (r: Vec<ListenerHotkey>)
        ensures
            r@ == hotkeys_of(self@),
    {
        self.registry.values()
    }
}

impl<B: HotkeyBackend, C: HotkeyCallback> Listener<B, C> {
    /// Delivers one key-release event by its native identifier: if the
    /// identifier is bound, the callback runs synchronously on the caller's
    /// — the worker's — execution context. Every binding keeps its identifier
    /// and hotkey.
    pub fn dispatch(&mut self, id: ListenerId) -> (r: bool)
        ensures
            r == has_id(old(self)@, id),
            final(self)@.len() == old(self)@.len(),
            forall|j: int|
                0 <= j < old(self)@.len() ==> (#[trigger] final(self)@[j]).id == old(self)@[j].id
                    && final(self)@[j].hotkey == old(self)@[j].hotkey,
    {
        self.registry.dispatch(id)
    }

    /// One worker step on the event side: polls the backend for at most one
    /// pending key-release event and dispatches it. Returns whether a bound
    /// callback ran; the bindings keep their identifiers and hotkeys either
    /// way.
    pub fn poll(&mut self) -> (r: bool)
        ensures
            final(self)@.len() == old(self)@.len(),
            forall|j: int|
                0 <= j < old(self)@.len() ==> (#[trigger] final(self)@[j]).id == old(self)@[j].id
                    && final(self)@[j].hotkey == old(self)@[j].hotkey,
    {
        match self.backend.poll_event() {
            Some(id) => self.dispatch(id),
            None => false,
        }
    }
}

} // verus!
