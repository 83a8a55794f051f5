//! A global-hotkey listener engine: a registry of key-combination bindings,
//! a facade that registers and releases them through a pluggable native
//! backend, and the bookkeeping rules that keep the two consistent.

pub mod backend;
pub mod callback;
pub mod error;
pub mod hotkey;
pub mod keys;
pub mod laws;
pub mod listener;
pub mod modifiers;
pub mod registry;

pub use crate::backend::CountingBackend;
pub use crate::backend::HotkeyBackend;
pub use crate::callback::HotkeyCallback;
pub use crate::error::HotkeyError;
pub use crate::hotkey::ListenerHotkey;
pub use crate::hotkey::ListenerId;
pub use crate::listener::Listener;
