use std::cell::Cell;
use std::rc::Rc;

use hotkey_listener::{
    CountingBackend, HotkeyBackend, HotkeyCallback, HotkeyError, Listener, ListenerHotkey,
    ListenerId,
    backend::{grab_outcome, ungrab_outcome},
    keys, modifiers,
};

/// A backend that refuses every grab with a fixed platform error code.
struct DenyBackend;

impl HotkeyBackend for DenyBackend {
    fn grab(&mut self, _modifiers: u32, _key: u32) -> Result<ListenerId, HotkeyError> {
        Err(HotkeyError::BackendApiError(7))
    }

    fn ungrab(&mut self, _id: ListenerId) -> Result<(), HotkeyError> {
        Ok(())
    }

    fn poll_event(&mut self) -> Option<ListenerId> {
        None
    }
}

/// A misbehaving backend that grants every grab under the same identifier.
struct SameIdBackend;

impl HotkeyBackend for SameIdBackend {
    fn grab(&mut self, _modifiers: u32, _key: u32) -> Result<ListenerId, HotkeyError> {
        Ok((1, 0))
    }

    fn ungrab(&mut self, _id: ListenerId) -> Result<(), HotkeyError> {
        Ok(())
    }

    fn poll_event(&mut self) -> Option<ListenerId> {
        None
    }
}

/// A backend that grants sequential identifiers and replays a scripted list
/// of key-release events, one per poll.
struct ScriptedBackend {
    next_code: i32,
    events: Vec<ListenerId>,
}

impl ScriptedBackend {
    fn new(events: Vec<ListenerId>) -> ScriptedBackend {
        ScriptedBackend { next_code: 1, events }
    }
}

impl HotkeyBackend for ScriptedBackend {
    fn grab(&mut self, modifiers: u32, _key: u32) -> Result<ListenerId, HotkeyError> {
        let code = self.next_code;
        self.next_code += 1;
        Ok((code, modifiers))
    }

    fn ungrab(&mut self, _id: ListenerId) -> Result<(), HotkeyError> {
        Ok(())
    }

    fn poll_event(&mut self) -> Option<ListenerId> {
        if self.events.is_empty() { None } else { Some(self.events.remove(0)) }
    }
}

/// A callback that counts its invocations through a shared cell.
struct CountingCallback(Rc<Cell<u32>>);

impl HotkeyCallback for CountingCallback {
    fn invoke(&mut self) {
        self.0.set(self.0.get() + 1);
    }
}

#[test]
fn backend_failure_is_returned_and_records_nothing() {
    let mut listener: Listener<DenyBackend, fn()> = Listener::new(DenyBackend);

    let hotkey = ListenerHotkey::new(modifiers::ALT, keys::A);

    assert_eq!(
        listener.register_hotkey(hotkey, || {}),
        Err(HotkeyError::BackendApiError(7))
    );

    assert_eq!(listener.registered_hotkeys().len(), 0);

    // the failed registration left the hotkey unbound
    assert_eq!(
        listener.unregister_hotkey(hotkey),
        Err(HotkeyError::HotkeyNotRegistered(hotkey))
    );
}

#[test]
fn duplicate_native_identifier_is_a_protocol_violation() {
    let mut listener: Listener<SameIdBackend, fn()> = Listener::new(SameIdBackend);

    let hotkey1 = ListenerHotkey::new(modifiers::ALT, keys::A);
    let hotkey2 = ListenerHotkey::new(modifiers::CONTROL, keys::B);

    assert_eq!(listener.register_hotkey(hotkey1, || {}), Ok(()));

    // the second grant reuses the identifier of the first: refused, unchanged
    assert_eq!(listener.register_hotkey(hotkey2, || {}), Err(HotkeyError::Unknown));

    assert_eq!(listener.registered_hotkeys().len(), 1);
    assert_eq!(listener.registered_hotkeys()[0], hotkey1);
}

#[test]
fn dispatch_runs_the_callback_of_the_bound_identifier() {
    let mut listener: Listener<CountingBackend, CountingCallback> =
        Listener::new(CountingBackend::new());

    let fired = Rc::new(Cell::new(0));

    let hotkey = ListenerHotkey::new(modifiers::ALT, keys::A);

    assert_eq!(
        listener.register_hotkey(hotkey, CountingCallback(Rc::clone(&fired))),
        Ok(())
    );

    // the counting backend granted the first registration identifier (1, ALT)
    assert!(listener.dispatch((1, modifiers::ALT)));
    assert_eq!(fired.get(), 1);

    assert!(listener.dispatch((1, modifiers::ALT)));
    assert_eq!(fired.get(), 2);

    // an identifier that was never granted dispatches nothing
    assert!(!listener.dispatch((2, modifiers::ALT)));
    assert_eq!(fired.get(), 2);
}

#[test]
fn unregistered_hotkey_no_longer_receives_events() {
    let mut listener: Listener<CountingBackend, CountingCallback> =
        Listener::new(CountingBackend::new());

    let fired = Rc::new(Cell::new(0));

    let hotkey = ListenerHotkey::new(modifiers::CONTROL, keys::C);

    assert_eq!(
        listener.register_hotkey(hotkey, CountingCallback(Rc::clone(&fired))),
        Ok(())
    );
    assert_eq!(listener.unregister_hotkey(hotkey), Ok(()));

    // the binding and its callback are gone
    assert!(!listener.dispatch((1, modifiers::CONTROL)));
    assert_eq!(fired.get(), 0);
}

#[test]
fn poll_consumes_one_event_per_step() {
    let events = vec![(1, modifiers::ALT), (9, 0)];
    let mut listener: Listener<ScriptedBackend, CountingCallback> =
        Listener::new(ScriptedBackend::new(events));

    let fired = Rc::new(Cell::new(0));

    let hotkey = ListenerHotkey::new(modifiers::ALT, keys::A);

    assert_eq!(
        listener.register_hotkey(hotkey, CountingCallback(Rc::clone(&fired))),
        Ok(())
    );

    // first pending event matches the binding
    assert!(listener.poll());
    assert_eq!(fired.get(), 1);

    // second pending event carries an unbound identifier
    assert!(!listener.poll());
    assert_eq!(fired.get(), 1);

    // no events are pending any more
    assert!(!listener.poll());
    assert_eq!(fired.get(), 1);
}

#[test]
fn native_status_zero_is_failure() {
    assert_eq!(grab_outcome(0, 38, modifiers::ALT), Err(HotkeyError::BackendApiError(0)));
    assert_eq!(grab_outcome(1, 38, modifiers::ALT), Ok((38, modifiers::ALT)));

    assert_eq!(ungrab_outcome(0), Err(HotkeyError::BackendApiError(0)));
    assert_eq!(ungrab_outcome(1), Ok(()));
}

#[test]
fn hotkey_identity_is_both_fields() {
    let a = ListenerHotkey::new(modifiers::ALT, keys::A);

    assert_eq!(a.modifiers, modifiers::ALT);
    assert_eq!(a.key, keys::A);

    assert_eq!(a, ListenerHotkey::new(modifiers::ALT, keys::A));
    assert_ne!(a, ListenerHotkey::new(modifiers::CONTROL, keys::A));
    assert_ne!(a, ListenerHotkey::new(modifiers::ALT, keys::B));
}

#[test]
fn registered_hotkeys_lists_in_insertion_order() {
    let mut listener: Listener<CountingBackend, fn()> = Listener::new(CountingBackend::new());

    let hotkey1 = ListenerHotkey::new(modifiers::SHIFT, keys::F1);
    let hotkey2 = ListenerHotkey::new(modifiers::SUPER, keys::HOME);
    let hotkey3 = ListenerHotkey::new(modifiers::ALT_GR, keys::KEY_7);

    assert_eq!(listener.register_hotkey(hotkey1, || {}), Ok(()));
    assert_eq!(listener.register_hotkey(hotkey2, || {}), Ok(()));
    assert_eq!(listener.register_hotkey(hotkey3, || {}), Ok(()));

    assert_eq!(listener.registered_hotkeys(), vec![hotkey1, hotkey2, hotkey3]);

    assert_eq!(listener.unregister_hotkey(hotkey2), Ok(()));

    assert_eq!(listener.registered_hotkeys(), vec![hotkey1, hotkey3]);
}
