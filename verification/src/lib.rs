//! A custom runtime client for the AWS Lambda Runtime API.
//!
//! The crate models the runtime loop and its supporting pieces: the
//! per-invocation context built from response headers, the error payload
//! matching the Runtime API's wire contract, the handler-dispatch adapter,
//! and the loop's state machine with its one-step duplicate rule. The
//! HTTP transport itself lives outside this library; the loop's decisions
//! are functions from state and observed outcome to next state and action.

pub mod api;
pub mod context;
pub mod error;
pub mod handler;
pub mod runtime;
