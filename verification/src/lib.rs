//! Push-notification dispatch for a self-hosted sync server.
//!
//! When a cipher, folder, send or user changes, or a device is registered,
//! unregistered or logged out, the server tells an external push relay, which
//! passes the event on to the platforms' push services. This crate decides
//! what is told and when: which events are suppressed, what each envelope
//! holds, which bearer token a request presents, and when that token has to
//! be refreshed. Delivery is best effort: a notification that fails is logged
//! and never fails the operation that caused it.
//!
//! The crate does no I/O. Every operation in [`dispatch`] returns a
//! [`dispatch::Step`]: either the one piece of outside work to do next,
//! together with the continuation that takes its answer, or the end of the
//! operation. The caller looks devices up, talks HTTP, reads the clock and
//! guards the shared [`token::TokenCache`]; a continuation needs the cache
//! only for the moment of its call, never across I/O.
//!
//! - [`model`]: the entities and the configuration, as far as dispatch reads
//!   them.
//! - [`event`]: the events, and what each needs before it can go out.
//! - [`envelope`]: the envelope of each kind of event and its JSON form.
//! - [`token`]: the token cache, its expiry and its refresh.
//! - [`relay`]: the requests to the relay and the judgement of its replies.
//! - [`dispatch`]: the operations, step by step.
//! - [`run`]: what holds of every complete run of an operation.
//! - [`json`]: JSON documents, built and read through `serde_json`.
//! - [`views`], [`error`]: the views used in contracts, and the error types.

pub mod dispatch;
pub mod envelope;
pub mod error;
pub mod event;
pub mod json;
pub mod model;
pub mod relay;
pub mod run;
pub mod token;
pub mod views;
