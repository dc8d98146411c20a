//! Verified core of the HV Collector installer: configuration forms, their
//! validation rules, the text shown on the setup screens, and the decisions
//! taken while preparing Docker images and the compose bundle.

pub mod text;
pub mod app;
pub mod ui;
pub mod airgapped;
pub mod utils;
