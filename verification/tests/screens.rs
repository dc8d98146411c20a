use nqrust_hvcollector::app::form_data::{FocusState, FormData};
use nqrust_hvcollector::app::registry_form::{FocusState as TokenFocus, RegistryForm};
use nqrust_hvcollector::ui::env_setup::{display_value, field_caption, field_cursor, form_sections, EnvSetupView};
use nqrust_hvcollector::ui::registry::{status_tone, token_display, RegistrySetupView, StatusTone};

#[test]
fn values_are_shown_masked_or_marked_empty() {
    assert_eq!(display_value(&"abc".to_string(), true), "***");
    assert_eq!(display_value(&"é".to_string(), true), "**");
    assert_eq!(display_value(&String::new(), true), "<empty>");
    assert_eq!(display_value(&String::new(), false), "<empty>");
    assert_eq!(display_value(&"postgres".to_string(), false), "postgres");
}

#[test]
fn cursor_and_caption() {
    assert_eq!(field_cursor(true), "▶");
    assert_eq!(field_cursor(false), " ");
    assert_eq!(field_caption("PostgreSQL Host", true), "PostgreSQL Host *");
    assert_eq!(field_caption("PostgreSQL User", false), "PostgreSQL User");
}

#[test]
fn sections_cover_all_fields_in_order() {
    let s = form_sections();
    assert_eq!(s.len(), 3);
    assert_eq!(s[0].title, "━━━ PostgreSQL Database ━━━");
    assert_eq!(s[1].title, "━━━ Hypervisor/SSH Settings ━━━");
    assert_eq!(s[2].title, "━━━ Collector Settings ━━━");
    assert_eq!((s[0].start, s[0].end), (0, 6));
    assert_eq!((s[1].start, s[1].end), (6, 9));
    assert_eq!((s[2].start, s[2].end), (9, FormData::new().get_total_fields()));
}

#[test]
fn field_lines_of_a_new_form() {
    let mut f = FormData::new();
    f.postgres_password = "pw".to_string();
    f.focus_state = FocusState::Field(2);
    let view = EnvSetupView { form_data: &f };
    let l = view.field_line(2);
    assert!(l.focused);
    assert_eq!(l.cursor, "▶");
    assert_eq!(l.caption, "PostgreSQL Password *");
    assert_eq!(l.value, "**");
    let l = view.field_line(6);
    assert!(!l.focused);
    assert_eq!(l.cursor, " ");
    assert_eq!(l.caption, "Hypervisor Host *");
    assert_eq!(l.value, "<empty>");
    let l = view.field_line(9);
    assert_eq!(l.caption, "Cluster Name");
    assert_eq!(l.value, "harvester");
    let l = view.field_line(11);
    assert_eq!(l.caption, "Prometheus URL (optional)");
    assert_eq!(l.value, "http://127.0.0.1:9090");
    let l = view.field_line(12);
    assert_eq!(l.caption, "Log Retention Days");
    assert_eq!(l.value, "365");
    let l = view.field_line(13);
    assert_eq!(l.caption, "Data Retention Days");
    assert_eq!(l.value, "30");
    assert!(view.error_line().is_none());
    assert!(!view.is_save_focused());
    assert!(!view.is_cancel_focused());
}

#[test]
fn error_line_and_buttons() {
    let mut f = FormData::new();
    f.validate();
    f.focus_state = FocusState::SaveButton;
    let view = EnvSetupView { form_data: &f };
    assert_eq!(view.error_line(), Some(&"PostgreSQL Password is required!".to_string()));
    assert!(view.is_save_focused());
    assert!(!view.is_cancel_focused());
    assert!(!view.is_field_focused(0));
    let mut g = FormData::new();
    g.focus_state = FocusState::CancelButton;
    let view = EnvSetupView { form_data: &g };
    assert!(view.is_cancel_focused());
}

#[test]
fn token_is_masked_per_character() {
    assert_eq!(token_display(""), "<paste token here>");
    assert_eq!(token_display("ghp_1"), "*****");
    assert_eq!(token_display("é"), "*");
}

#[test]
fn status_tones() {
    assert_eq!(status_tone("Login successful"), StatusTone::Success);
    assert_eq!(status_tone("success after error"), StatusTone::Success);
    assert_eq!(status_tone("Login failed"), StatusTone::Failure);
    assert_eq!(status_tone("network error"), StatusTone::Failure);
    assert_eq!(status_tone("Awaiting input..."), StatusTone::Pending);
    assert_eq!(status_tone("Error"), StatusTone::Pending);
}

#[test]
fn status_message_precedence() {
    let mut f = RegistryForm::new();
    let v = RegistrySetupView { form: &f, status: None };
    assert_eq!(v.status_message(), "Awaiting input...");
    assert!(v.is_field_focused());
    f.validate();
    let v = RegistrySetupView { form: &f, status: None };
    assert_eq!(v.status_message(), "Personal access token is required");
    let v = RegistrySetupView { form: &f, status: Some("Login successful") };
    assert_eq!(v.status_message(), "Login successful");
    let mut g = RegistryForm::new();
    g.focus_state = TokenFocus::SaveButton;
    let v = RegistrySetupView { form: &g, status: None };
    assert!(v.is_save_focused());
    assert!(!v.is_cancel_focused());
    assert!(!v.is_field_focused());
    g.focus_state = TokenFocus::CancelButton;
    let v = RegistrySetupView { form: &g, status: None };
    assert!(v.is_cancel_focused());
}
