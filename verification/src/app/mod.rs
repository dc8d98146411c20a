//! The installer's forms and screen states.

pub mod form_data;
pub mod registry_form;
pub mod state;
