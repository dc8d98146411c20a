//! Content of the registry login screen: the masked token and the status line
//! with its tone.

use vstd::prelude::*;
use crate::app::registry_form::{FocusState, RegistryForm};
use crate::text::{contains_str, contains_text, mask, repeat_star};

verus! {

broadcast use vstd::string::group_string_axioms;

/// The login screen for a form, with the status of the last login attempt.
pub struct RegistrySetupView<'a> {
    pub form: &'a RegistryForm,
    pub status: Option<&'a str>,
}

/// How a status line reads: it reports a success, a failure, or neither.
#[derive(Debug, Clone, Copy, PartialEq, Eq, Structural)]
pub enum StatusTone {
    Success,
    Failure,
    Pending,
}

/// The token as shown: a prompt while it is empty, else one `*` per character.
pub open spec fn shown_token(token: Seq<char>) -> Seq<char> {
    if token.len() == 0 {
        "<paste token here>"@
    } else {
        mask(token.len())
    }
}

/// The status line: the login status if there is one, else the validation
/// message if there is one, else a prompt.
pub open spec fn shown_status(status: Option<Seq<char>>, error: Seq<char>) -> Seq<char> {
    match status {
        Some(m) => m,
        None => if error.len() > 0 {
            error
        } else {
            "Awaiting input..."@
        },
    }
}

/// A message mentioning "success" reads as a success; else one mentioning
/// "failed" or "error" as a failure; else as pending.
pub open spec fn tone_of(message: Seq<char>) -> StatusTone {
    if contains_text(message, "success"@) {
        StatusTone::Success
    } else if contains_text(message, "failed"@) || contains_text(message, "error"@) {
        StatusTone::Failure
    } else {
        StatusTone::Pending
    }
}

/// The token as the screen shows it.
pub fn token_display(token: &str) -> (r: String)
    ensures
        r@ == shown_token(token@),
{
    if token.is_empty() {
        "<paste token here>".to_string()
    } else {
        repeat_star(token.unicode_len())
    }
}

/// The tone in which a status line is shown.
pub fn status_tone(message: &str) -> (r: StatusTone)
    ensures
        r == tone_of(message@),
{
    if contains_str(message, "success") {
        StatusTone::Success
    } else if contains_str(message, "failed") || contains_str(message, "error") {
        StatusTone::Failure
    } else {
        StatusTone::Pending
    }
}

/// Law: a shown token reveals nothing but its number of characters: it is
/// made of `*` only, and two non-empty tokens of the same length look the same.
pub proof fn lemma_token_masking(a: Seq<char>, b: Seq<char>)
    ensures
        a.len() > 0 ==> forall|i: int| 0 <= i < shown_token(a).len() ==> #[trigger] shown_token(a)[i] == '*',
        a.len() > 0 ==> shown_token(a).len() == a.len(),
        a.len() > 0 && a.len() == b.len() ==> shown_token(a) == shown_token(b),
{
}

/// Law: a status mentioning "success" reads as a success whatever else it
/// says; one mentioning "failed" or "error" but not "success" reads as a
/// failure; one mentioning none of them reads as pending.
pub proof fn lemma_status_tone(m: Seq<char>)
    ensures
        contains_text(m, "success"@) ==> tone_of(m) == StatusTone::Success,
        !contains_text(m, "success"@) && (contains_text(m, "failed"@) || contains_text(m, "error"@))
            ==> tone_of(m) == StatusTone::Failure,
        !contains_text(m, "success"@) && !contains_text(m, "failed"@) && !contains_text(m, "error"@)
            ==> tone_of(m) == StatusTone::Pending,
{
}

/// Law: the status line shows the login status whenever there is one,
/// whatever the validation message; without a status it shows the
/// validation message if any, else the prompt. So two screens with the same
/// status show the same line however their forms differ.
pub proof fn lemma_status_line(v: RegistrySetupView, w: RegistrySetupView)
    ensures
        v.status matches Some(s) ==> shown_status(v.status_view(), v.form.error_message@) == s@,
        v.status is None && v.form.error_message@.len() > 0 ==> shown_status(
            v.status_view(),
            v.form.error_message@,
        ) == v.form.error_message@,
        v.status is None && v.form.error_message@.len() == 0 ==> shown_status(
            v.status_view(),
            v.form.error_message@,
        ) == "Awaiting input..."@,
        v.status is Some && v.status == w.status ==> shown_status(v.status_view(), v.form.error_message@)
            == shown_status(w.status_view(), w.form.error_message@),
{
}

impl<'a> RegistrySetupView<'a> {
    /// The view of the login status, if any.
    pub open spec fn status_view(&self) -> Option<Seq<char>> {
        match self.status {
            Some(s) => Some(s@),
            None => None,
        }
    }

    /// The status line to show.
    pub fn status_message(&self) -> (r: String)
        ensures
            r@ == shown_status(self.status_view(), self.form.error_message@),
    {
        if let Some(message) = self.status {
            message.to_string()
        } else if !self.form.error_message.as_str().is_empty() {
            self.form.error_message.clone()
        } else {
            "Awaiting input...".to_string()
        }
    }

    /// Whether the focus is on the token field.
    pub fn is_field_focused(&self) -> (r: bool)
        ensures
            r == (self.form.focus_state is Field),
    {
        match &self.form.focus_state {
            FocusState::Field(_) => true,
            _ => false,
        }
    }

    /// Whether the focus is on the submit button.
    pub fn is_save_focused(&self) -> (r: bool)
        ensures
            r == (self.form.focus_state == FocusState::SaveButton),
    {
        match &self.form.focus_state {
            FocusState::SaveButton => true,
            _ => false,
        }
    }

    /// Whether the focus is on the skip button.
    pub fn is_cancel_focused(&self) -> (r: bool)
        ensures
            r == (self.form.focus_state == FocusState::CancelButton),
    {
        match &self.form.focus_state {
            FocusState::CancelButton => true,
            _ => false,
        }
    }
}

} // verus!
