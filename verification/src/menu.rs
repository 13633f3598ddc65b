//! The tray menu's behaviour: an "Enabled" checkbox mirroring
//! `Config::enabled`, and Quit. Building the native menu happens at the
//! edge; this module decides what a click on an item does.

use vstd::prelude::*;
use crate::config::Config;
use crate::text::str_eq;

verus! {

/// What the application does after a menu click.
#[derive(Debug, Clone, Copy, PartialEq, Eq, Structural)]
pub enum MenuAction {
    /// Exit the process.
    Quit,
    /// The configuration changed: persist it.
    SaveConfig,
    /// The click was on no item of ours.
    Nothing,
}

/// The configuration after a click on `clicked`: a click on Enabled (and
/// not on Quit) flips `enabled`; nothing else changes it.
pub open spec fn after_click(config: Config, clicked: Seq<char>, quit_id: Seq<char>, enabled_id: Seq<char>) -> Config {
    if clicked != quit_id && clicked == enabled_id {
        Config { enabled: !config.enabled, ..config }
    } else {
        config
    }
}

/// What a click on `clicked` asks the application to do.
pub open spec fn click_action(clicked: Seq<char>, quit_id: Seq<char>, enabled_id: Seq<char>) -> MenuAction {
    if clicked == quit_id {
        MenuAction::Quit
    } else if clicked == enabled_id {
        MenuAction::SaveConfig
    } else {
        MenuAction::Nothing
    }
}

/// Handles a click on the menu item `clicked`, given the identifiers of
/// the Quit item and of the Enabled checkbox.
pub fn handle_menu_event(config: &mut Config, clicked: &str, quit_id: &str, enabled_id: &str) -> (action: MenuAction)
    ensures
        action == click_action(clicked@, quit_id@, enabled_id@),
        *final(config) == after_click(*old(config), clicked@, quit_id@, enabled_id@),
{
    if str_eq(clicked, quit_id) {
        MenuAction::Quit
    } else if str_eq(clicked, enabled_id) {
        config.enabled = !config.enabled;
        MenuAction::SaveConfig
    } else {
        MenuAction::Nothing
    }
}

/// Clicking the same item twice gives back the configuration one started
/// with; in particular, a second click on Enabled undoes the first.
pub proof fn lemma_second_click_undoes_first(
    config: Config,
    clicked: Seq<char>,
    quit_id: Seq<char>,
    enabled_id: Seq<char>,
)
    ensures
        after_click(after_click(config, clicked, quit_id, enabled_id), clicked, quit_id, enabled_id)
            == config,
{
}

/// A click never changes the reaction delay.
pub proof fn lemma_click_keeps_delay(
    config: Config,
    clicked: Seq<char>,
    quit_id: Seq<char>,
    enabled_id: Seq<char>,
)
    ensures
        after_click(config, clicked, quit_id, enabled_id).action_delay_ms == config.action_delay_ms,
{
}

/// A click on Quit quits and changes nothing; a click on Enabled (when it
/// is not also Quit) flips `enabled`, keeps the delay and asks to save; any
/// other click does nothing.
pub proof fn lemma_click_outcomes(config: Config, clicked: Seq<char>, quit_id: Seq<char>, enabled_id: Seq<char>)
    ensures
        clicked == quit_id ==> click_action(clicked, quit_id, enabled_id) == MenuAction::Quit
            && after_click(config, clicked, quit_id, enabled_id) == config,
        clicked != quit_id && clicked == enabled_id ==> click_action(clicked, quit_id, enabled_id)
            == MenuAction::SaveConfig && after_click(config, clicked, quit_id, enabled_id).enabled
            != config.enabled && after_click(config, clicked, quit_id, enabled_id).action_delay_ms
            == config.action_delay_ms,
        clicked != quit_id && clicked != enabled_id ==> click_action(clicked, quit_id, enabled_id)
            == MenuAction::Nothing && after_click(config, clicked, quit_id, enabled_id) == config,
{
}

} // verus!
