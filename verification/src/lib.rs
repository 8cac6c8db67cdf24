//! Write coordination for a device telemetry gateway.
//!
//! Every accepted signal goes to three independent sinks: a relational
//! store, a time-series store and a message broker. This library holds the
//! rules of that fan-out: the data model, the projection of a signal onto a
//! time-series point, the plan of sink calls for one signal or a batch, the
//! aggregation of the sinks' outcomes into one result, and the health
//! snapshot over all sinks. Transport is left to the caller, which performs
//! the planned calls and hands the outcomes back.

pub mod adapters;
pub mod config;
pub mod failure;
pub mod health;
pub mod models;
pub mod plan;
pub mod services;
pub mod sink;
pub mod text;
