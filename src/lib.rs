//! Lifecycle engine for deploying service-unit applications: manifest
//! discovery, status reconciliation, install/uninstall plans and the
//! step runner that drives them, and fleet-wide selection.
use vstd::prelude::*;

pub mod app;
pub mod cli;
pub mod error;
pub mod laws;
pub mod manager;
pub mod paths;
pub mod plan;
pub mod probe;
pub mod status;
