//! The high-level input events the platform layer produces, and the
//! platform backends. What a backend does with the operating system lies
//! outside this crate; here each backend is the value that names it.

use vstd::prelude::*;

verus! {

/// A high-level input event, already distilled from whatever raw OS event
/// produced it.
#[derive(Debug, Clone, Copy, PartialEq, Eq, Structural)]
pub enum InputEvent {
    /// The user finished a gesture that plausibly ended a text selection:
    /// a drag past a small threshold, or a double/triple-click.
    PotentialSelection,
    /// The user pressed the bare select-all chord (Cmd+A).
    SelectAllPressed,
}

/// The macOS backend, the only one implemented.
#[derive(Debug, Clone, Copy, PartialEq, Eq, Structural)]
pub struct MacPlatform;

/// The Windows backend, not yet available.
#[derive(Debug, Clone, Copy, PartialEq, Eq, Structural)]
pub struct WindowsPlatform;

/// The Linux backend, not yet available.
#[derive(Debug, Clone, Copy, PartialEq, Eq, Structural)]
pub struct LinuxPlatform;

impl MacPlatform {
    pub fn new() -> (platform: Self)
        ensures
            platform == MacPlatform,
    {
        MacPlatform
    }
}

impl WindowsPlatform {
    pub fn new() -> (platform: Self)
        ensures
            platform == WindowsPlatform,
    {
        WindowsPlatform
    }
}

impl LinuxPlatform {
    pub fn new() -> (platform: Self)
        ensures
            platform == LinuxPlatform,
    {
        LinuxPlatform
    }
}

} // verus!
