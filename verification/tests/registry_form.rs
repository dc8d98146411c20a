use nqrust_hvcollector::app::registry_form::{FocusState, RegistryForm};
use nqrust_hvcollector::app::state::{AppState, MenuSelection};

#[test]
fn new_registry_form_is_empty() {
    let f = RegistryForm::new();
    assert_eq!(f.token, "");
    assert_eq!(f.focus_state, FocusState::Field(0));
    assert_eq!(f.error_message, "");
    let d = RegistryForm::default();
    assert_eq!(d.token, "");
    assert_eq!(d.focus_state, FocusState::Field(0));
    assert_eq!(d.error_message, "");
}

#[test]
fn blank_token_is_refused() {
    let mut f = RegistryForm::new();
    assert!(!f.validate());
    assert_eq!(f.error_message, "Personal access token is required");
    f.token = " \t ".to_string();
    assert!(!f.validate());
    assert_eq!(f.error_message, "Personal access token is required");
}

#[test]
fn token_is_accepted_and_message_cleared() {
    let mut f = RegistryForm::new();
    f.error_message = "Personal access token is required".to_string();
    f.token = " ghp_abc ".to_string();
    assert!(f.validate());
    assert_eq!(f.error_message, "");
    assert_eq!(f.token, " ghp_abc ");
}

#[test]
fn token_validation_ignores_focus() {
    let mut f = RegistryForm::new();
    f.token = "t".to_string();
    f.focus_state = FocusState::CancelButton;
    assert!(f.validate());
    f.token = String::new();
    f.focus_state = FocusState::SaveButton;
    assert!(!f.validate());
}

#[test]
fn current_value_is_the_token() {
    let mut f = RegistryForm::new();
    f.focus_state = FocusState::SaveButton;
    f.get_current_value_mut().push_str("abc");
    assert_eq!(f.token, "abc");
    assert_eq!(f.focus_state, FocusState::SaveButton);
}

#[test]
fn states_compare() {
    assert_eq!(AppState::Error("x".to_string()), AppState::Error("x".to_string()));
    assert_ne!(AppState::Error("x".to_string()), AppState::Error("y".to_string()));
    assert_ne!(AppState::RegistrySetup, AppState::Confirmation);
    assert_eq!(MenuSelection::Proceed, MenuSelection::Proceed.clone());
    assert_ne!(MenuSelection::GenerateEnv, MenuSelection::Cancel);
    let all = [
        AppState::RegistrySetup,
        AppState::Confirmation,
        AppState::EnvSetup,
        AppState::UpdateList,
        AppState::UpdatePulling,
        AppState::Installing,
        AppState::Success,
    ];
    assert_eq!(all.len(), 7);
    let menu = [
        MenuSelection::Proceed,
        MenuSelection::GenerateEnv,
        MenuSelection::UpdateToken,
        MenuSelection::CheckUpdates,
        MenuSelection::Cancel,
    ];
    assert_eq!(menu.len(), 5);
}
