//! The decision logic of the Pact command line tool: platform targets and
//! download locations, the extension registry and its updates, the plans that
//! the `extension`, `broker ruby` and `broker docker` commands carry out, and
//! the telemetry set-up plan. Everything that touches the file system, the
//! network, processes or global logging state lives outside this crate and
//! hands the values it read to these functions.

pub mod text;
pub mod platform;
pub mod config;
pub mod manager;
pub mod commands;
pub mod table;
pub mod broker;
pub mod ruby_session;
pub mod otel;
pub mod laws;
