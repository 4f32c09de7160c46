//! Global hotkeys: parsing shortcut strings into hotkeys, the event bus that
//! carries their presses and releases, and the decisions of the platform
//! backends (the X11 worker's grab table and edge detection, and the
//! Windows and macOS key and modifier codes).

pub mod carbon;
pub mod channel;
pub mod code;
pub mod error;
pub mod event;
pub mod hotkey;
pub mod manager;
pub mod parser;
pub mod text;
pub mod win32;
pub mod x11;

pub use error::Error;
pub use event::{EventBus, GlobalHotKeyEvent, HotKeyState};
pub use manager::GlobalHotKeyManager;
