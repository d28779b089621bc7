//! The decision logic behind Clippy's paste-on-select feature: the settings
//! enums and their stored names, the clipboard-type codec, the choice of text
//! to paste, the window that should receive it, the focus and modifier waits,
//! the key-chord sequence, the command-line fallbacks, and the settings
//! migration. Everything that touches the display server, the keyboard, the
//! database or the clock is performed by the caller, which feeds the results
//! back into the step functions here.
#![allow(unused_imports)]

pub mod text;
pub mod enums;
pub mod clipboard;
pub mod target_window;
pub mod focus;
pub mod paste;
pub mod input_tools;
pub mod migration;

