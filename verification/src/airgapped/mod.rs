//! Offline installation: the Docker images shipped with the installer.

pub mod docker;
