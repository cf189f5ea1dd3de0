//! Decision logic of a keyboard overlay: key naming, modifier tracking,
//! focused-text-input detection, tray-menu commands and persisted settings.

pub mod keys;
pub mod tap;
pub mod text;
pub mod text_input;
pub mod settings;
pub mod menu;
pub mod dock;
pub mod overlay;
pub mod focus;
pub mod permission;
pub mod focus_laws;
