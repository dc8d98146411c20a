//! What the setup screens show, apart from how it is drawn.

pub mod env_setup;
pub mod registry;
