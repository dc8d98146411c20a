//! Content of the configuration screen: its sections and, for each field, the
//! cursor, the caption and the value as shown.

use vstd::prelude::*;
use crate::app::form_data::{field_label, field_required, field_secret, FocusState, FormData, FIELD_COUNT};
use crate::text::{mask, repeat_star};

verus! {

broadcast use vstd::string::group_string_axioms;

/// The configuration screen for a form.
pub struct EnvSetupView<'a> {
    pub form_data: &'a FormData,
}

/// A titled group of consecutive fields, `start..end`.
pub struct FormSection {
    pub title: &'static str,
    pub start: usize,
    pub end: usize,
}

/// One line of the form as shown.
pub struct FieldLine {
    pub focused: bool,
    pub cursor: &'static str,
    pub caption: String,
    pub value: String,
}

/// A value as shown: a non-empty secret masked with one `*` per byte of its
/// UTF-8 encoding (the `len` of the string), an empty value as `<empty>`, anything else as it is.
pub open spec fn shown_value(value: Seq<char>, secret: bool) -> Seq<char> {
    if secret && value.len() > 0 {
        mask((vstd::utf8::encode_utf8(value).len() as usize) as nat)
    } else if value.len() == 0 {
        "<empty>"@
    } else {
        value
    }
}

/// The cursor before a field line.
pub open spec fn cursor_mark(focused: bool) -> Seq<char> {
    if focused {
        "▶"@
    } else {
        " "@
    }
}

/// The mark after the label of a required field.
pub open spec fn required_mark(required: bool) -> Seq<char> {
    if required {
        " *"@
    } else {
        ""@
    }
}

/// The section titles and their fields.
pub open spec fn section_title(k: int) -> Seq<char> {
    if k == 0 {
        "━━━ PostgreSQL Database ━━━"@
    } else if k == 1 {
        "━━━ Hypervisor/SSH Settings ━━━"@
    } else {
        "━━━ Collector Settings ━━━"@
    }
}

pub open spec fn section_start(k: int) -> int {
    if k == 0 {
        0
    } else if k == 1 {
        6
    } else {
        9
    }
}

pub open spec fn section_end(k: int) -> int {
    if k == 0 {
        6
    } else if k == 1 {
        9
    } else {
        FIELD_COUNT as int
    }
}

/// The value of a field as the screen shows it.
pub fn display_value(value: &String, is_password: bool) -> (r: String)
    ensures
        r@ == shown_value(value@, is_password),
{
    if is_password && !value.as_str().is_empty() {
        repeat_star(value.as_str().len())
    } else if value.as_str().is_empty() {
        "<empty>".to_string()
    } else {
        value.clone()
    }
}

/// The cursor shown before a field line.
pub fn field_cursor(is_focused: bool) -> (r: &'static str)
    ensures
        r@ == cursor_mark(is_focused),
{
    if is_focused {
        "▶"
    } else {
        " "
    }
}

/// The label of a field followed by the mark of a required field.
pub fn field_caption(label: &str, is_required: bool) -> (r: String)
    ensures
        r@ == label@ + required_mark(is_required),
{
    let mut r = label.to_string();
    if is_required {
        r.append(" *");
    } else {
        r.append("");
    }
    r
}

/// The three sections of the form, in order.
pub fn form_sections() -> (r: Vec<FormSection>)
    ensures
        r@.len() == 3,
        forall|k: int|
            0 <= k < 3 ==> {
                &&& (#[trigger] r@[k]).title@ == section_title(k)
                &&& r@[k].start == section_start(k)
                &&& r@[k].end == section_end(k)
            },
{
    let mut r: Vec<FormSection> = Vec::new();
    r.push(FormSection { title: "━━━ PostgreSQL Database ━━━", start: 0, end: 6 });
    r.push(FormSection { title: "━━━ Hypervisor/SSH Settings ━━━", start: 6, end: 9 });
    r.push(FormSection { title: "━━━ Collector Settings ━━━", start: 9, end: FIELD_COUNT });
    r
}

/// Law: the sections list every field once, in order: the first starts at
/// the first field, each ends where the next starts, the last ends after the
/// last field, and none is empty.
pub proof fn lemma_sections_partition_fields()
    ensures
        section_start(0) == 0,
        forall|k: int| 0 <= k < 2 ==> #[trigger] section_end(k) == section_start(k + 1),
        section_end(2) == FIELD_COUNT,
        forall|k: int| 0 <= k < 3 ==> section_start(k) < #[trigger] section_end(k),
{
}

/// Law: a shown secret reveals nothing but its size: it is made of `*`
/// only, and two non-empty secrets of the same byte length look the same.
/// A value that is not secret is shown as typed, unless it is empty.
pub proof fn lemma_secret_masking(a: Seq<char>, b: Seq<char>)
    ensures
        a.len() > 0 ==> forall|i: int|
            0 <= i < shown_value(a, true).len() ==> #[trigger] shown_value(a, true)[i] == '*',
        a.len() > 0 && b.len() > 0 && vstd::utf8::encode_utf8(a).len() == vstd::utf8::encode_utf8(
            b,
        ).len() ==> shown_value(a, true) == shown_value(b, true),
        a.len() > 0 ==> shown_value(a, false) == a,
{
}

/// Law: exactly one field line is highlighted when the focus is on a field,
/// the focused one, and none when the focus is on a button.
pub proof fn lemma_single_focused_line(v: EnvSetupView, i: int, j: int)
    ensures
        v.focused_on(i) && v.focused_on(j) ==> i == j,
        v.form_data.focus_state is Field ==> v.focused_on(v.form_data.focus_state->Field_0 as int),
        !(v.form_data.focus_state is Field) ==> !v.focused_on(i),
{
}

impl<'a> EnvSetupView<'a> {
    /// The focus is on field `idx`.
    pub open spec fn focused_on(&self, idx: int) -> bool {
        self.form_data.focus_state == FocusState::Field(idx as usize) && 0 <= idx <= usize::MAX
    }

    /// Whether the focus is on field `idx`.
    pub fn is_field_focused(&self, idx: usize) -> (r: bool)
        ensures
            r == self.focused_on(idx as int),
    {
        match &self.form_data.focus_state {
            FocusState::Field(i) => *i == idx,
            _ => false,
        }
    }

    /// The line of field `idx`: focus, cursor, caption and shown value.
    pub fn field_line(&self, idx: usize) -> (r: FieldLine)
        ensures
            r.focused == self.focused_on(idx as int),
            r.cursor@ == cursor_mark(r.focused),
            r.caption@ == field_label(idx as int) + required_mark(field_required(idx as int)),
            r.value@ == shown_value(self.form_data.field(idx as int)@, field_secret(idx as int)),
    {
        let focused = self.is_field_focused(idx);
        let label = self.form_data.get_field_label(idx);
        let value = self.form_data.get_field_value(idx);
        let is_password = self.form_data.is_password_field(idx);
        let is_required = self.form_data.is_field_required(idx);
        FieldLine {
            focused,
            cursor: field_cursor(focused),
            caption: field_caption(label, is_required),
            value: display_value(value, is_password),
        }
    }

    /// The message of the last validation, when there is one to show.
    pub fn error_line(&self) -> (r: Option<&String>)
        ensures
            r is Some <==> self.form_data.error_message@.len() > 0,
            r matches Some(m) ==> *m == self.form_data.error_message,
    {
        if self.form_data.error_message.as_str().is_empty() {
            None
        } else {
            Some(&self.form_data.error_message)
        }
    }

    /// Whether the focus is on the save button.
    pub fn is_save_focused(&self) -> (r: bool)
        ensures
            r == (self.form_data.focus_state == FocusState::SaveButton),
    {
        match &self.form_data.focus_state {
            FocusState::SaveButton => true,
            _ => false,
        }
    }

    /// Whether the focus is on the cancel button.
    pub fn is_cancel_focused(&self) -> (r: bool)
        ensures
            r == (self.form_data.focus_state == FocusState::CancelButton),
    {
        match &self.form_data.focus_state {
            FocusState::CancelButton => true,
            _ => false,
        }
    }
}

} // verus!
