use vstd::prelude::*;

verus! {

/// The capability a registry entry owns: a single-method callable unit of
/// work. The worker invokes it synchronously on its own execution context
/// whenever the bound key combination is released, so an implementation must
/// be fast, must not block, and must not re-enter the listener that is
/// waiting on the same worker.
pub trait HotkeyCallback {
    /// Runs the callback once. It may be invoked repeatedly.
    fn invoke(&mut self);
}

} // verus!
