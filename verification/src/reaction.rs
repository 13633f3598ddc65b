//! How AutoCopy reacts to an input event. Both triggers mean the same
//! thing, "the user just selected something, so copy it", and get the same
//! treatment: when enabled, wait the configured delay, ask whether text is
//! selected, and send the copy shortcut unless the answer is a confirmed
//! "nothing is selected".

use vstd::prelude::*;
use crate::config::Config;
use crate::platform::InputEvent;

verus! {

/// What to do right after an input event.
#[derive(Debug, Clone, Copy, PartialEq, Eq, Structural)]
pub enum Reaction {
    /// Do nothing (AutoCopy is switched off).
    Ignore,
    /// Wait `delay_ms` milliseconds, then check the selection and copy.
    CopyAfterDelay { delay_ms: u64 },
}

/// The reaction to `event` under `config`.
pub open spec fn reaction(config: Config, event: InputEvent) -> Reaction {
    if config.enabled {
        Reaction::CopyAfterDelay { delay_ms: config.action_delay_ms }
    } else {
        Reaction::Ignore
    }
}

/// Whether the copy goes ahead, given the focused app's answer to "is text
/// selected?": only a confirmed "no" (`Some(false)`) stops it; an unknown
/// answer (`None`) copies anyway.
pub open spec fn copy_permitted(selection: Option<bool>) -> bool {
    selection != Some(false)
}

/// Decides the reaction to one input event. Each event is handled on its
/// own: nothing is remembered from one event to the next.
pub fn react_to_event(config: &Config, event: InputEvent) -> (r: Reaction)
    ensures
        r == reaction(*config, event),
{
    match event {
        InputEvent::PotentialSelection | InputEvent::SelectAllPressed => {
            if !config.enabled {
                Reaction::Ignore
            } else {
                Reaction::CopyAfterDelay { delay_ms: config.action_delay_ms }
            }
        },
    }
}

/// Decides, after the delay, whether to send the copy shortcut.
pub fn should_send_copy(selection: Option<bool>) -> (copy: bool)
    ensures
        copy == copy_permitted(selection),
{
    match selection {
        Some(false) => false,
        _ => true,
    }
}

/// One event as the event loop meets it: the configuration at the moment
/// the event is taken, the event, and the answer the focused app gives when
/// asked about the selection after the delay.
pub type ReactionStep = (Config, InputEvent, Option<bool>);

/// Whether one step ends with the copy shortcut being sent.
pub open spec fn step_copies(step: ReactionStep) -> bool {
    reaction(step.0, step.1) is CopyAfterDelay && copy_permitted(step.2)
}

/// How many copy shortcuts a run of steps sends, each step on its own.
pub open spec fn copies_sent(steps: Seq<ReactionStep>) -> nat
    decreases steps.len(),
{
    if steps.len() == 0 {
        0
    } else {
        copies_sent(steps.drop_last()) + if step_copies(steps.last()) {
            1nat
        } else {
            0nat
        }
    }
}

/// The steps taken while AutoCopy was enabled and whose selection answer
/// was not a confirmed "nothing is selected".
pub open spec fn copying_steps(steps: Seq<ReactionStep>) -> Seq<ReactionStep> {
    steps.filter(|step: ReactionStep| step.0.enabled && step.2 != Some(false))
}

/// A mouse selection and a select-all chord get the same treatment.
pub proof fn lemma_triggers_treated_alike(config: Config)
    ensures
        reaction(config, InputEvent::PotentialSelection) == reaction(config, InputEvent::SelectAllPressed),
{
}

/// An enabled configuration waits exactly the configured delay.
pub proof fn lemma_enabled_waits_configured_delay(config: Config, event: InputEvent)
    requires
        config.enabled,
    ensures
        reaction(config, event) == (Reaction::CopyAfterDelay { delay_ms: config.action_delay_ms }),
{
}

/// Over any run of events, the copies sent are exactly the events taken
/// while AutoCopy was enabled whose selection answer was `Some(true)` or
/// `None`, whichever kind each event was.
pub proof fn lemma_copies_match_enabled_unrefused_events(steps: Seq<ReactionStep>)
    ensures
        copies_sent(steps) == copying_steps(steps).len(),
    decreases steps.len(),
{
    reveal_with_fuel(Seq::filter, 1);
    if steps.len() > 0 {
        lemma_copies_match_enabled_unrefused_events(steps.drop_last());
    }
}

/// Two runs that differ only in which kind each event is send the same
/// number of copies.
pub proof fn lemma_event_kinds_do_not_matter(steps: Seq<ReactionStep>, other: Seq<ReactionStep>)
    requires
        steps.len() == other.len(),
        forall|i: int| 0 <= i < steps.len() ==> (#[trigger] steps[i]).0 == other[i].0 && steps[i].2 == other[i].2,
    ensures
        copies_sent(steps) == copies_sent(other),
    decreases steps.len(),
{
    if steps.len() > 0 {
        let a = steps.drop_last();
        let b = other.drop_last();
        assert forall|i: int| 0 <= i < a.len() implies (#[trigger] a[i]).0 == b[i].0 && a[i].2 == b[i].2 by {
            assert(a[i] == steps[i] && b[i] == other[i]);
        }
        lemma_event_kinds_do_not_matter(a, b);
        assert(steps.last() == steps[steps.len() - 1]);
        assert(other.last() == other[other.len() - 1]);
    }
}

/// With AutoCopy switched off for every event, no event leads to a copy.
pub proof fn lemma_disabled_copies_nothing(steps: Seq<ReactionStep>)
    requires
        forall|i: int| 0 <= i < steps.len() ==> !(#[trigger] steps[i]).0.enabled,
    ensures
        copies_sent(steps) == 0,
    decreases steps.len(),
{
    if steps.len() > 0 {
        let a = steps.drop_last();
        assert forall|i: int| 0 <= i < a.len() implies !(#[trigger] a[i]).0.enabled by {
            assert(a[i] == steps[i]);
        }
        lemma_disabled_copies_nothing(a);
        assert(steps.last() == steps[steps.len() - 1]);
    }
}

/// When the focused app confirms every time that nothing is selected, no
/// copy is sent.
pub proof fn lemma_confirmed_empty_selection_copies_nothing(steps: Seq<ReactionStep>)
    requires
        forall|i: int| 0 <= i < steps.len() ==> (#[trigger] steps[i]).2 == Some(false),
    ensures
        copies_sent(steps) == 0,
    decreases steps.len(),
{
    if steps.len() > 0 {
        let a = steps.drop_last();
        assert forall|i: int| 0 <= i < a.len() implies (#[trigger] a[i]).2 == Some(false) by {
            assert(a[i] == steps[i]);
        }
        lemma_confirmed_empty_selection_copies_nothing(a);
        assert(steps.last() == steps[steps.len() - 1]);
    }
}

/// When every event is taken while enabled, and the app reports a selection
/// or cannot tell, every trigger copies once, independently of the others.
pub proof fn lemma_every_trigger_copies_once(steps: Seq<ReactionStep>)
    requires
        forall|i: int| 0 <= i < steps.len() ==> (#[trigger] steps[i]).0.enabled && steps[i].2 != Some(false),
    ensures
        copies_sent(steps) == steps.len(),
    decreases steps.len(),
{
    if steps.len() > 0 {
        let a = steps.drop_last();
        assert forall|i: int| 0 <= i < a.len() implies (#[trigger] a[i]).0.enabled && a[i].2 != Some(false) by {
            assert(a[i] == steps[i]);
        }
        lemma_every_trigger_copies_once(a);
        assert(steps.last() == steps[steps.len() - 1]);
    }
}

} // verus!
