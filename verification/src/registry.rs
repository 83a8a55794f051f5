use vstd::prelude::*;

use crate::callback::HotkeyCallback;
use crate::hotkey::{ListenerHotkey, ListenerId};

verus! {

/// One registry binding: the native identifier a grab was granted under, the
/// logical hotkey it stands for, and the callback the binding owns.
pub struct Entry<C> {
    pub id: ListenerId,
    pub hotkey: ListenerHotkey,
    pub callback: C,
}

/// The hotkey values of a sequence of bindings, in order.
pub open spec fn hotkeys_of<C>(s: Seq<Entry<C>>) -> Seq<ListenerHotkey> {
    s.map_values(|e: Entry<C>| e.hotkey)
}

/// Whether some binding carries the native identifier `id`.
pub open spec fn has_id<C>(s: Seq<Entry<C>>, id: ListenerId) -> bool {
    exists|i: int| 0 <= i < s.len() && (#[trigger] s[i]).id == id
}

/// Whether some binding carries the hotkey value `hotkey`.
pub open spec fn has_hotkey<C>(s: Seq<Entry<C>>, hotkey: ListenerHotkey) -> bool {
    exists|i: int| 0 <= i < s.len() && (#[trigger] s[i]).hotkey == hotkey
}

/// The index of the binding that carries `id`; meaningful when `has_id` holds.
pub open spec fn index_of_id<C>(s: Seq<Entry<C>>, id: ListenerId) -> int {
    choose|i: int| 0 <= i < s.len() && (#[trigger] s[i]).id == id
}

/// The index of the binding that carries `hotkey`; meaningful when
/// `has_hotkey` holds.
pub open spec fn index_of_hotkey<C>(s: Seq<Entry<C>>, hotkey: ListenerHotkey) -> int {
    choose|i: int| 0 <= i < s.len() && (#[trigger] s[i]).hotkey == hotkey
}

/// Well-formedness of a sequence of bindings: at most one binding per native
/// identifier and at most one binding per hotkey value.
pub open spec fn wf_entries<C>(s: Seq<Entry<C>>) -> bool {
    forall|i: int, j: int|
        0 <= i < j < s.len() ==> (#[trigger] s[i]).id != (#[trigger] s[j]).id && s[i].hotkey
            != s[j].hotkey
}

/// Appending a binding whose identifier and hotkey are both fresh keeps the
/// bindings well-formed.
pub proof fn lemma_wf_push<C>(s: Seq<Entry<C>>, e: Entry<C>)
    requires
        wf_entries(s),
        !has_id(s, e.id),
        !has_hotkey(s, e.hotkey),
    ensures
        wf_entries(s.push(e)),
{
    let t = s.push(e);
    assert forall|i: int, j: int| 0 <= i < j < t.len() implies (#[trigger] t[i]).id != (
    #[trigger] t[j]).id && t[i].hotkey != t[j].hotkey by {
        if j == s.len() {
            assert(t[i] == s[i]);
            assert(t[j] == e);
            assert(!(0 <= i < s.len() && s[i].id == e.id));
            assert(!(0 <= i < s.len() && s[i].hotkey == e.hotkey));
        } else {
            assert(t[i] == s[i]);
            assert(t[j] == s[j]);
        }
    }
}

/// Removing a binding keeps the remaining bindings well-formed.
pub proof fn lemma_wf_remove<C>(s: Seq<Entry<C>>, k: int)
    requires
        wf_entries(s),
        0 <= k < s.len(),
    ensures
        wf_entries(s.remove(k)),
{
    let t = s.remove(k);
    assert forall|i: int, j: int| 0 <= i < j < t.len() implies (#[trigger] t[i]).id != (
    #[trigger] t[j]).id && t[i].hotkey != t[j].hotkey by {
        let i0 = if i < k { i } else { i + 1 };
        let j0 = if j < k { j } else { j + 1 };
        assert(t[i] == s[i0]);
        assert(t[j] == s[j0]);
    }
}

/// Replacing a binding's callback while keeping its identifier and hotkey
/// keeps the bindings well-formed.
pub proof fn lemma_wf_update<C>(s: Seq<Entry<C>>, k: int, e: Entry<C>)
    requires
        wf_entries(s),
        0 <= k < s.len(),
        e.id == s[k].id,
        e.hotkey == s[k].hotkey,
    ensures
        wf_entries(s.update(k, e)),
{
    let t = s.update(k, e);
    assert forall|i: int, j: int| 0 <= i < j < t.len() implies (#[trigger] t[i]).id != (
    #[trigger] t[j]).id && t[i].hotkey != t[j].hotkey by {
        assert(t[i].id == s[i].id && t[i].hotkey == s[i].hotkey);
        assert(t[j].id == s[j].id && t[j].hotkey == s[j].hotkey);
    }
}

/// Under well-formedness the identifier of a binding points back at that very
/// binding: identifiers are an unambiguous key.
pub proof fn lemma_index_of_id_unique<C>(s: Seq<Entry<C>>, i: int)
    requires
        wf_entries(s),
        0 <= i < s.len(),
    ensures
        index_of_id(s, s[i].id) == i,
{
    assert(has_id(s, s[i].id));
    let j = index_of_id(s, s[i].id);
    if i < j {
        assert(s[i].id != s[j].id);
    } else if j < i {
        assert(s[j].id != s[i].id);
    }
}

/// Under well-formedness the hotkey of a binding points back at that very
/// binding: hotkey values are an unambiguous key.
pub proof fn lemma_index_of_hotkey_unique<C>(s: Seq<Entry<C>>, i: int)
    requires
        wf_entries(s),
        0 <= i < s.len(),
    ensures
        index_of_hotkey(s, s[i].hotkey) == i,
{
    assert(has_hotkey(s, s[i].hotkey));
    let j = index_of_hotkey(s, s[i].hotkey);
    if i < j {
        assert(s[i].hotkey != s[j].hotkey);
    } else if j < i {
        assert(s[j].hotkey != s[i].hotkey);
    }
}

/// The authoritative table from native identifier to (hotkey, callback).
/// Insertions happen only after a confirmed successful native grab; removal
/// is the only way ownership of a callback leaves the table.
#[verifier::reject_recursive_types(C)]
pub struct Registry<C> {
    entries: Vec<Entry<C>>,
}

impl<C> View for Registry<C> {
    type V = Seq<Entry<C>>;

    closed spec fn view(&self) -> Seq<Entry<C>> {
        self.entries@
    }
}

impl<C> Registry<C> {
    /// The registry invariant: native identifiers and hotkey values are both
    /// unique across all bindings.
    #[verifier::type_invariant]
    spec fn inv(self) -> bool {
        wf_entries(self.entries@)
    }

    /// An empty registry.
    pub fn new() -> (r: Registry<C>)
        ensures
            r@ == Seq::<Entry<C>>::empty(),
    {
        Registry { entries: Vec::new() }
    }

    /// How many bindings are held.
    pub fn len(&self) -> (r: usize)
        ensures
            r == self@.len(),
    {
        self.entries.len()
    }

    /// The position of the binding that carries `id`, if any.
    fn position_of_id(&self, id: ListenerId) -> (r: Option<usize>)
        ensures
            match r {
                None => !has_id(self@, id),
                Some(k) => has_id(self@, id) && k as int == index_of_id(self@, id) && k
                    < self@.len() && self@[k as int].id == id,
            },
    {
        proof {
            use_type_invariant(&*self);
        }
        let n = self.entries.len();
        let mut i: usize = 0;
        while i < n
            invariant
                n == self.entries@.len(),
                i <= n,
                wf_entries(self.entries@),
                forall|j: int| 0 <= j < i ==> (#[trigger] self.entries@[j]).id != id,
            decreases n - i,
        {
            let e = &self.entries[i];
            if e.id.0 == id.0 && e.id.1 == id.1 {
                proof {
                    assert(self.entries@[i as int].id == id);
                    assert(has_id(self.entries@, id));
                    lemma_index_of_id_unique(self.entries@, i as int);
                }
                return Some(i);
            }
            i += 1;
        }
        None
    }

    /// The position of the binding that carries `hotkey`, if any.
    fn position_of_hotkey(&self, hotkey: ListenerHotkey) -> (r: Option<usize>)
        ensures
            match r {
                None => !has_hotkey(self@, hotkey),
                Some(k) => has_hotkey(self@, hotkey) && k as int == index_of_hotkey(self@, hotkey)
                    && k < self@.len() && self@[k as int].hotkey == hotkey,
            },
    {
        proof {
            use_type_invariant(&*self);
        }
        let n = self.entries.len();
        let mut i: usize = 0;
        while i < n
            invariant
                n == self.entries@.len(),
                i <= n,
                wf_entries(self.entries@),
                forall|j: int| 0 <= j < i ==> (#[trigger] self.entries@[j]).hotkey != hotkey,
            decreases n - i,
        {
            if self.entries[i].hotkey == hotkey {
                proof {
                    assert(has_hotkey(self.entries@, hotkey));
                    lemma_index_of_hotkey_unique(self.entries@, i as int);
                }
                return Some(i);
            }
            i += 1;
        }
        None
    }

    /// Whether a binding with this hotkey value exists.
    pub fn contains_hotkey(&self, hotkey: ListenerHotkey) -> (r: bool)
        ensures
            r == has_hotkey(self@, hotkey),
    {
        self.position_of_hotkey(hotkey).is_some()
    }

    /// Whether a binding with this native identifier exists.
    pub fn contains_id(&self, id: ListenerId) -> (r: bool)
        ensures
            r == has_id(self@, id),
    {
        self.position_of_id(id).is_some()
    }

    /// The native identifier under which this hotkey value is bound, if any.
    pub fn find_native_id_for(&self, hotkey: ListenerHotkey) -> (r: Option<ListenerId>)
        ensures
            !has_hotkey(self@, hotkey) ==> r is None,
            has_hotkey(self@, hotkey) ==> ({
                let i = index_of_hotkey(self@, hotkey);
                &&& r == Some(self@[i].id)
                &&& has_id(self@, self@[i].id)
                &&& index_of_id(self@, self@[i].id) == i
            }),
    {
        proof {
            use_type_invariant(&*self);
        }
        match self.position_of_hotkey(hotkey) {
            Some(i) => {
                proof {
                    assert(has_id(self.entries@, self.entries@[i as int].id));
                    lemma_index_of_id_unique(self.entries@, i as int);
                }
                Some(self.entries[i].id)
            },
            None => None,
        }
    }

    /// Binds a fresh native identifier to a hotkey and its callback. Freshness
    /// of both keys is the caller's obligation: the facade checks the hotkey
    /// before contacting the backend and the identifier when the grant comes
    /// back.
    pub fn insert(&mut self, id: ListenerId, hotkey: ListenerHotkey, callback: C)
        requires
            !has_id(old(self)@, id),
            !has_hotkey(old(self)@, hotkey),
        ensures
            final(self)@ == old(self)@.push((Entry { id, hotkey, callback })),
    {
        proof {
            use_type_invariant(&*self);
            lemma_wf_push(self.entries@, (Entry { id, hotkey, callback }));
        }
        let mut entries: Vec<Entry<C>> = Vec::new();
        std::mem::swap(&mut entries, &mut self.entries);
        entries.push(Entry { id, hotkey, callback });
        std::mem::swap(&mut entries, &mut self.entries);
    }

    /// Unbinds the native identifier, handing the callback's ownership out;
    /// a registry without that identifier is left unchanged.
    pub fn remove(&mut self, id: ListenerId) -> (r: Option<C>)
        ensures
            !has_id(old(self)@, id) ==> r is None && final(self)@ == old(self)@,
            has_id(old(self)@, id) ==> ({
                let i = index_of_id(old(self)@, id);
                &&& final(self)@ == old(self)@.remove(i)
                &&& r == Some(old(self)@[i].callback)
            }),
    {
        proof {
            use_type_invariant(&*self);
        }
        match self.position_of_id(id) {
            Some(i) => {
                proof {
                    lemma_wf_remove(self.entries@, i as int);
                }
                let mut entries: Vec<Entry<C>> = Vec::new();
                std::mem::swap(&mut entries, &mut self.entries);
                let entry = entries.remove(i);
                std::mem::swap(&mut entries, &mut self.entries);
                Some(entry.callback)
            },
            None => None,
        }
    }

    /// The hotkey values of all bindings, in registry order.
    pub fn values(&self) -> (r: Vec<ListenerHotkey>)
        ensures
            r@ == hotkeys_of(self@),
    {
        let n = self.entries.len();
        let mut result: Vec<ListenerHotkey> = Vec::new();
        let mut i: usize = 0;
        while i < n
            invariant
                n == self.entries@.len(),
                i <= n,
                result@ == hotkeys_of(self.entries@.take(i as int)),
            decreases n - i,
        {
            result.push(self.entries[i].hotkey);
            proof {
                assert(result@ =~= hotkeys_of(self.entries@.take(i + 1 as int)));
            }
            i += 1;
        }
        proof {
            assert(self.entries@.take(n as int) =~= self.entries@);
        }
        result
    }
}

impl<C: HotkeyCallback> Registry<C> {
    /// Worker-side event delivery: if the native identifier is bound, run its
    /// callback synchronously. Every binding keeps its identifier and hotkey;
    /// only the invoked callback may have changed its own state.
    pub fn dispatch(&mut self, id: ListenerId) -> (r: bool)
        ensures
            r == has_id(old(self)@, id),
            final(self)@.len() == old(self)@.len(),
            forall|j: int|
                0 <= j < old(self)@.len() ==> (#[trigger] final(self)@[j]).id == old(self)@[j].id
                    && final(self)@[j].hotkey == old(self)@[j].hotkey,
    {
        proof {
            use_type_invariant(&*self);
        }
        match self.position_of_id(id) {
            Some(i) => {
                let ghost s0 = self.entries@;
                let mut entries: Vec<Entry<C>> = Vec::new();
                std::mem::swap(&mut entries, &mut self.entries);
                let e = &mut entries[i];
                e.callback.invoke();
                proof {
                    lemma_wf_update(s0, i as int, entries@[i as int]);
                }
                std::mem::swap(&mut entries, &mut self.entries);
                true
            },
            None => false,
        }
    }
}

} // verus!
