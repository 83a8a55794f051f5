use vstd::prelude::*;

use crate::hotkey::ListenerHotkey;
use crate::registry::{Entry, has_hotkey, hotkeys_of, index_of_hotkey, wf_entries};

verus! {

// The facade's contracts describe each call as a step on the binding
// sequence: a successful registration appends a binding (`push`), a
// successful unregistration removes the binding found for the hotkey
// (`remove` at `index_of_hotkey`), and a refused call leaves the sequence
// unchanged. The laws below state what those steps compose to.

/// Registering two distinct hotkeys, both granted, starting from an empty
/// listener: the second registration is not refused as a duplicate, and
/// afterwards exactly the two hotkeys are listed.
pub proof fn lemma_distinct_registrations_accumulate<C>(e1: Entry<C>, e2: Entry<C>)
    requires
        e1.hotkey != e2.hotkey,
    ensures
        !has_hotkey(Seq::<Entry<C>>::empty().push(e1), e2.hotkey),
        hotkeys_of(Seq::<Entry<C>>::empty().push(e1).push(e2)) == seq![e1.hotkey, e2.hotkey],
        has_hotkey(Seq::<Entry<C>>::empty().push(e1).push(e2), e1.hotkey),
        has_hotkey(Seq::<Entry<C>>::empty().push(e1).push(e2), e2.hotkey),
{
    let s = Seq::<Entry<C>>::empty().push(e1).push(e2);
    assert(s[0] == e1);
    assert(s[1] == e2);
    assert(hotkeys_of(s) =~= seq![e1.hotkey, e2.hotkey]);
}

/// A hotkey that was just registered is present among the bindings; by
/// `register_hotkey`'s contract a second registration of the same value is
/// therefore answered with `HotkeyAlreadyRegistered` and changes nothing.
pub proof fn lemma_registered_hotkey_present<C>(s: Seq<Entry<C>>, e: Entry<C>)
    ensures
        has_hotkey(s.push(e), e.hotkey),
{
    assert(s.push(e)[s.len() as int] == e);
}

/// Registering a hotkey on an empty listener and then unregistering the same
/// value empties the listener again: the unregistration finds the binding
/// just made, and removing it leaves no bindings.
pub proof fn lemma_register_then_unregister_restores_empty<C>(e: Entry<C>)
    ensures
        has_hotkey(Seq::<Entry<C>>::empty().push(e), e.hotkey),
        index_of_hotkey(Seq::<Entry<C>>::empty().push(e), e.hotkey) == 0,
        Seq::<Entry<C>>::empty().push(e).remove(0) == Seq::<Entry<C>>::empty(),
{
    let s = Seq::<Entry<C>>::empty().push(e);
    assert(s[0] == e);
    assert(s.remove(0) =~= Seq::<Entry<C>>::empty());
}

/// Unregistering a hotkey frees its value: among well-formed bindings no
/// other binding carries it, so removing the one found leaves the value
/// unbound and a fresh registration of the identical hotkey is no longer
/// refused as a duplicate.
pub proof fn lemma_removed_hotkey_free<C>(s: Seq<Entry<C>>, hotkey: ListenerHotkey)
    requires
        wf_entries(s),
        has_hotkey(s, hotkey),
    ensures
        !has_hotkey(s.remove(index_of_hotkey(s, hotkey)), hotkey),
{
    let k = index_of_hotkey(s, hotkey);
    let t = s.remove(k);
    assert forall|j: int| 0 <= j < t.len() implies (#[trigger] t[j]).hotkey != hotkey by {
        let j0 = if j < k {
            j
        } else {
            j + 1
        };
        assert(t[j] == s[j0]);
        if j0 < k {
            assert(s[j0].hotkey != s[k].hotkey);
        } else {
            assert(s[k].hotkey != s[j0].hotkey);
        }
    }
}

} // verus!
