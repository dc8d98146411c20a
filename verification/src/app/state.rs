//! Screens of the installer and the choices of its main menu.

use vstd::prelude::*;

verus! {

/// The screen the installer is on.
#[derive(Debug, Clone, PartialEq)]
pub enum AppState {
    RegistrySetup,
    Confirmation,
    EnvSetup,
    UpdateList,
    UpdatePulling,
    Installing,
    Success,
    Error(String),
}

/// An entry of the confirmation menu.
#[derive(Debug, Clone, PartialEq, Eq, Structural)]
pub enum MenuSelection {
    Proceed,
    GenerateEnv,
    UpdateToken,
    CheckUpdates,
    Cancel,
}

} // verus!
