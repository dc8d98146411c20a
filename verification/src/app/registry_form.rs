//! The container-registry login form: one token field.

use vstd::prelude::*;
use crate::text::{is_blank, is_blank_str, is_white_space};

verus! {

broadcast use vstd::string::group_string_axioms;

/// Where the keyboard focus of the login form is.
#[derive(Debug, Clone, PartialEq, Eq, Structural)]
pub enum FocusState {
    Field(usize),
    SaveButton,
    CancelButton,
}

/// The personal access token entered for the registry, with the form's focus
/// and the message of its last validation.
#[derive(Debug)]
pub struct RegistryForm {
    pub token: String,
    pub focus_state: FocusState,
    pub error_message: String,
}

/// The message of a blank token.
pub open spec fn msg_token_required() -> Seq<char> {
    "Personal access token is required"@
}

impl RegistryForm {
    /// The token may be submitted.
    pub open spec fn is_valid(&self) -> bool {
        !is_blank(self.token@)
    }

    /// An empty form focused on the token field.
    pub fn new() -> (r: Self)
        ensures
            r.token@ == Seq::<char>::empty(),
            r.focus_state == FocusState::Field(0),
            r.error_message@ == Seq::<char>::empty(),
    {
        Self { token: String::new(), focus_state: FocusState::Field(0), error_message: String::new() }
    }

    /// The text that keyboard input edits: always the token.
    pub fn get_current_value_mut(&mut self) -> (r: &mut String)
        ensures
            *r == old(self).token,
            *final(self) == (RegistryForm { token: *final(r), ..*old(self) }),
    {
        &mut self.token
    }

    /// Accepts a token that is not blank and clears the message; otherwise
    /// sets the message of a missing token. Only the message changes.
    pub fn validate(&mut self) -> (r: bool)
        ensures
            r == old(self).is_valid(),
            final(self).error_message@ == (if r {
                Seq::<char>::empty()
            } else {
                msg_token_required()
            }),
            *final(self) == (RegistryForm { error_message: final(self).error_message, ..*old(self) }),
    {
        if is_blank_str(self.token.as_str()) {
            self.error_message = "Personal access token is required".to_string();
            return false;
        }
        self.error_message = String::new();
        true
    }
}

/// Law: whether the token is accepted depends on the token alone, not on the
/// focus or on the message already shown.
pub proof fn lemma_token_validation_ignores_state(f: RegistryForm, focus: FocusState, m: String)
    ensures
        (RegistryForm { focus_state: focus, error_message: m, ..f }).is_valid() == f.is_valid(),
{
}

/// Law: a token is accepted exactly when it holds some character other than
/// white space, whatever its length or its other characters.
pub proof fn lemma_token_accepted_exactly(f: RegistryForm)
    ensures
        f.is_valid() <==> exists|i: int| 0 <= i < f.token@.len() && !is_white_space(#[trigger] f.token@[i]),
{
}

/// Law: an accepted token stays accepted when more text is added around
/// it, so no length limit applies.
pub proof fn lemma_token_acceptance_grows(f: RegistryForm, g: RegistryForm, before: Seq<char>, after: Seq<char>)
    requires
        g.token@ == before + f.token@ + after,
        f.is_valid(),
    ensures
        g.is_valid(),
{
    let i = choose|i: int| 0 <= i < f.token@.len() && !is_white_space(#[trigger] f.token@[i]);
    assert(g.token@[before.len() + i] == f.token@[i]);
}

impl Default for RegistryForm {
    /// The same form as `new`.
    fn default() -> (r: Self)
        ensures
            r.token@ == Seq::<char>::empty(),
            r.focus_state == FocusState::Field(0),
            r.error_message@ == Seq::<char>::empty(),
    {
        Self::new()
    }
}

} // verus!
