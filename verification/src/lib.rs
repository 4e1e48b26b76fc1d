//! Key-state tracking for a live keyboard display: how low-level keyboard
//! hook messages become key events, how events become key identifiers and
//! key states, the standard 104-key layout the display draws, and the colours
//! it draws each key state in.

pub mod hook;
pub mod keyboard_view;
pub mod layout;
pub mod theme;

pub use hook::HookKeyEvent;
pub use keyboard_view::KeyboardView;
pub use layout::{make_key_id, KeyDef, KeyState};
