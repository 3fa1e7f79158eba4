//! Verified core of the AxonFlow governance SDK: the decision, refusal,
//! identity and telemetry rules the client applies around its HTTP calls.

pub mod authzen;
pub mod client;
pub mod config;
pub mod error;
pub mod heartbeat;
pub mod interceptors;
pub mod order;
pub mod pep;
pub mod query;
pub mod pep_handshake;
pub mod read_identity;
pub mod text;
pub mod typed_policies;
pub mod types;
