//! Core logic of a mail-submission client.
//!
//! The library turns structured mail data into envelope addressing and
//! wire-ready submission decisions, and models the life cycle of a single
//! reused SMTP session: a bounded request queue, an encoding pipeline with
//! per-request failure isolation, a fan-in combinator that drives a batch of
//! independent operations to completion, a connection state machine, and the
//! service driver loop that composes them.
//!
//! All network and executor work happens outside this crate. Each place where
//! the surrounding program performs such work is represented by an event
//! type; the functions here decide, from state and event, the next state and
//! the actions owed to callers, and those decisions carry contracts.

pub mod address;
pub mod encode;
pub mod error;
pub mod handle;
pub mod mpsc_ext;
pub mod request;
pub mod resolve_all;
pub mod service;
pub mod smtp_wrapper;
pub mod stop_handle;
