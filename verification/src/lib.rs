//! AutoCopy's decision logic: what to do with each input event, which
//! gestures and chords count, what a tray menu click does, how configured
//! shortcuts are checked for conflicts, and how the tray icon bitmap is
//! normalised. Reading the operating system's state and acting on it is
//! left to the program that uses this library.

pub mod config;
pub mod conflicts;
pub mod event_tap;
pub mod icon;
pub mod keys;
pub mod menu;
pub mod platform;
pub mod plist;
pub mod reaction;
pub mod selection;
pub mod text;
