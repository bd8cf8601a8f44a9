//! The small decisions of the window: when sending is refused, when the
//! prompt-saving row is shown, and how the toggled style classes flip.

use vstd::prelude::*;

use crate::settings::Configuration;
use crate::text::{char_is_white_space, is_blank, is_blank_text};

verus! {

/// Sending is refused without a key or an address, or when both prompts are empty.
pub open spec fn request_refused(url_prefix: Seq<char>, secret: Seq<char>, system_prompt: Seq<char>, user_prompt: Seq<char>) -> bool {
    secret.len() == 0 || url_prefix.len() == 0 || (system_prompt.len() == 0 && user_prompt.len() == 0)
}

/// Whether the send button is disabled (and the warning shown).
pub fn request_button_disable(config: &Configuration, system_prompt: &str, user_prompt: &str) -> (r: bool)
    ensures
        r == request_refused(config.url_prefix@, config.secret@, system_prompt@, user_prompt@),
{
    config.secret.as_str().is_empty() || config.url_prefix.as_str().is_empty() || (system_prompt.is_empty() && user_prompt.is_empty())
}

/// The style class that hides an element.
pub open spec fn hidden_class() -> Seq<char> {
    "is-hidden"@
}

/// The style class of the prompt-saving row for a system prompt: hidden while it is blank.
pub open spec fn save_row_class(system_prompt: Seq<char>) -> Seq<char> {
    if is_blank_text(system_prompt) {
        hidden_class()
    } else {
        Seq::empty()
    }
}

/// The style class of the prompt-saving row: hidden while the system prompt is blank.
pub fn save_button_attr(system_prompt: &str) -> (r: String)
    ensures
        r@ == save_row_class(system_prompt@),
{
    if is_blank(system_prompt) {
        String::from_str("is-hidden")
    } else {
        String::new()
    }
}

/// The class after a toggle: `active` when the current class is empty, empty otherwise.
pub open spec fn toggled(current: Seq<char>, active: Seq<char>) -> Seq<char> {
    if current.len() == 0 { active } else { Seq::empty() }
}

/// Flips a toggled style class (the settings row between hidden and shown,
/// the prompt list between open and closed).
pub fn toggle_class(current: &str, active: &str) -> (r: String)
    ensures
        r@ == toggled(current@, active@),
{
    if current.is_empty() {
        String::from_str(active)
    } else {
        String::new()
    }
}

/// Toggling twice gives back the class one started from, when that class is
/// one of the two that toggling produces and the active class is not empty.
pub proof fn lemma_toggle_twice(current: Seq<char>, active: Seq<char>)
    requires
        active.len() > 0,
        current.len() == 0 || current == active,
    ensures
        toggled(toggled(current, active), active) == current,
{
}

/// White space added before or after the system prompt (or trimmed from its
/// ends) never changes the class of the prompt-saving row.
pub proof fn lemma_outer_white_space(before: Seq<char>, system_prompt: Seq<char>, after: Seq<char>)
    requires
        is_blank_text(before),
        is_blank_text(after),
    ensures
        save_row_class(before + system_prompt + after) == save_row_class(system_prompt),
{
    let whole = before + system_prompt + after;
    if is_blank_text(system_prompt) {
        assert forall|i: int| 0 <= i < whole.len() implies char_is_white_space(#[trigger] whole[i]) by {
            if i < before.len() {
                assert(whole[i] == before[i]);
            } else if i < before.len() + system_prompt.len() {
                assert(whole[i] == system_prompt[i - before.len()]);
            } else {
                assert(whole[i] == after[i - before.len() - system_prompt.len()]);
            }
        }
    } else {
        let k = choose|k: int| 0 <= k < system_prompt.len() && !char_is_white_space(#[trigger] system_prompt[k]);
        assert(whole[before.len() + k] == system_prompt[k]);
    }
}

/// Sending is refused without a key or without an address; with both, it is
/// refused exactly when both prompts are empty, so one filled-in prompt is
/// enough and two filled-in prompts are never refused.
pub proof fn lemma_request_refused_when(url_prefix: Seq<char>, secret: Seq<char>, system_prompt: Seq<char>, user_prompt: Seq<char>)
    ensures
        (url_prefix.len() == 0 || secret.len() == 0) ==> request_refused(url_prefix, secret, system_prompt, user_prompt),
        (url_prefix.len() > 0 && secret.len() > 0) ==> (request_refused(url_prefix, secret, system_prompt, user_prompt)
            <==> (system_prompt.len() == 0 && user_prompt.len() == 0)),
        (url_prefix.len() > 0 && secret.len() > 0 && system_prompt.len() > 0 && user_prompt.len() > 0) ==> !request_refused(url_prefix, secret, system_prompt, user_prompt),
{
}

} // verus!
