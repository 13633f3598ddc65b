use autocopy::config::{Config, DEFAULT_ACTION_DELAY_MS};
use autocopy::platform::{InputEvent, LinuxPlatform, MacPlatform, WindowsPlatform};
use autocopy::reaction::{react_to_event, should_send_copy, Reaction};

fn test_config(enabled: bool) -> Config {
    Config { enabled, action_delay_ms: 0 }
}

/// Runs events through the reaction logic the way the event loop does,
/// with the focused app answering `selection`, and counts the copies.
fn copies(cfg: Config, events: &[InputEvent], selection: Option<bool>) -> usize {
    let mut copies = 0;
    for &event in events {
        match react_to_event(&cfg, event) {
            Reaction::Ignore => {}
            Reaction::CopyAfterDelay { .. } => {
                if should_send_copy(selection) {
                    copies += 1;
                }
            }
        }
    }
    copies
}

#[test]
fn select_all_copies() {
    assert_eq!(copies(test_config(true), &[InputEvent::SelectAllPressed], Some(true)), 1);
}

#[test]
fn mouse_selection_copies() {
    assert_eq!(copies(test_config(true), &[InputEvent::PotentialSelection], Some(true)), 1);
}

#[test]
fn triggers_are_independent() {
    let events = [InputEvent::PotentialSelection, InputEvent::SelectAllPressed];
    assert_eq!(copies(test_config(true), &events, Some(true)), 2);
}

#[test]
fn disabled_config_copies_nothing() {
    let events = [InputEvent::SelectAllPressed, InputEvent::PotentialSelection];
    assert_eq!(copies(test_config(false), &events, Some(true)), 0);
}

#[test]
fn affirmatively_empty_selection_skips_the_copy() {
    assert_eq!(copies(test_config(true), &[InputEvent::SelectAllPressed], Some(false)), 0);
}

#[test]
fn unknown_selection_state_copies_anyway() {
    assert_eq!(copies(test_config(true), &[InputEvent::SelectAllPressed], None), 1);
}

#[test]
fn enabled_reaction_waits_the_configured_delay() {
    let cfg = Config { enabled: true, action_delay_ms: 125 };
    assert_eq!(
        react_to_event(&cfg, InputEvent::PotentialSelection),
        Reaction::CopyAfterDelay { delay_ms: 125 }
    );
    assert_eq!(
        react_to_event(&cfg, InputEvent::SelectAllPressed),
        Reaction::CopyAfterDelay { delay_ms: 125 }
    );
    let off = Config { enabled: false, action_delay_ms: 125 };
    assert_eq!(react_to_event(&off, InputEvent::SelectAllPressed), Reaction::Ignore);
}

#[test]
fn default_config_is_enabled_with_fifty_ms() {
    let cfg = Config::default();
    assert!(cfg.enabled);
    assert_eq!(cfg.action_delay_ms, 50);
    assert_eq!(DEFAULT_ACTION_DELAY_MS, 50);
}

#[test]
fn platform_backends_are_named_values() {
    assert_eq!(MacPlatform::new(), MacPlatform);
    assert_eq!(WindowsPlatform::new(), WindowsPlatform);
    assert_eq!(LinuxPlatform::new(), LinuxPlatform);
}
