//! Best-effort "is any text actually selected right now?". The focused
//! app publishes its selection through the Accessibility tree
//! (`AXFocusedUIElement` -> `AXSelectedText`); reading it happens at the
//! edge, and this module turns what was read into the three-state answer.

use vstd::prelude::*;

verus! {

/// What reading the focused element's `AXSelectedText` attribute gave.
#[derive(Debug, Clone, Copy, PartialEq, Eq, Structural)]
pub enum SelectedTextAttribute {
    /// No focused element, or the attribute is unsupported or errored:
    /// the app does not report selection state.
    Unavailable,
    /// The attribute holds something other than a string.
    NotText,
    /// The attribute holds a string of `char_len` characters.
    Text { char_len: usize },
}

/// The three-state answer: `Some(true)` selection confirmed,
/// `Some(false)` the app affirmatively reports no selection, `None` the app
/// does not tell.
pub open spec fn selection_state(attribute: SelectedTextAttribute) -> Option<bool> {
    match attribute {
        SelectedTextAttribute::Text { char_len } => Some(char_len > 0),
        _ => None,
    }
}

/// Turns the attribute read into the three-state answer. "Unknown" is
/// never turned into "no": plenty of apps do not implement this part of the
/// Accessibility protocol.
pub fn has_text_selection(attribute: SelectedTextAttribute) -> (selected: Option<bool>)
    ensures
        selected == selection_state(attribute),
{
    match attribute {
        SelectedTextAttribute::Unavailable => None,
        SelectedTextAttribute::NotText => None,
        SelectedTextAttribute::Text { char_len } => Some(char_len > 0),
    }
}

/// A non-empty selected string, of any length, confirms a selection; an
/// empty one confirms there is none; anything else leaves it unknown.
pub proof fn lemma_selection_answer(attribute: SelectedTextAttribute)
    ensures
        attribute matches SelectedTextAttribute::Text { char_len } && char_len > 0
            ==> selection_state(attribute) == Some(true),
        attribute == (SelectedTextAttribute::Text { char_len: 0 }) ==> selection_state(attribute)
            == Some(false),
        selection_state(attribute) == Some(false) ==> attribute == (SelectedTextAttribute::Text {
            char_len: 0,
        }),
        !(attribute is Text) ==> selection_state(attribute) is None,
{
}

} // verus!
