use vstd::prelude::*;

verus! {

/// The user-facing settings. There are exactly two: whether AutoCopy is
/// active, and how long it waits before acting.
#[derive(Debug, Clone, Copy, PartialEq, Eq)]
pub struct Config {
    /// Master switch, mirrored by the "Enabled" checkbox in the tray menu.
    pub enabled: bool,
    /// Delay, in milliseconds, between the triggering event and the
    /// synthesized copy shortcut.
    pub action_delay_ms: u64,
}

/// The delay used when no setting says otherwise.
pub const DEFAULT_ACTION_DELAY_MS: u64 = 50;

impl Default for Config {
    fn default() -> (config: Self)
        ensures
            config.enabled,
            config.action_delay_ms == DEFAULT_ACTION_DELAY_MS,
    {
        Config { enabled: true, action_delay_ms: DEFAULT_ACTION_DELAY_MS }
    }
}

} // verus!
