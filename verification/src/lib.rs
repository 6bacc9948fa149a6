//! Adapter between a proving-service orchestration framework and the Snarkify
//! proving platform's REST API.
//!
//! The library holds everything the adapter decides: how circuit types and task
//! states are mapped, how requests are encoded and responses decoded, when
//! an attempt is retried, and what the caller is told on success and on every
//! kind of failure. Sending bytes over the network is left to the caller, which
//! hands each attempt's outcome back as an [`http::HttpOutcome`].
pub mod config;
pub mod datetime_utils;
pub mod decode;
pub mod http;
pub mod json;
pub mod proof_type;
pub mod prover;
pub mod proving_service;
pub mod response;
pub mod retry;
pub mod task_state;
pub mod text;
pub mod types;
