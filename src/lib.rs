//! The host side of the widget API: a capability-gated request/response protocol between a
//! client and an embedded widget.
//!
//! - [`json`]: JSON values, read and written by `serde_json`.
//! - [`codec`] and [`wire`]: the wire format of each payload and of whole messages.
//! - [`filter`] and [`permissions`]: event filters and the capability sets built from them.
//! - [`pending`]: the host-initiated requests that await the widget's reply.
//! - [`client`]: the session's state machine, from events to actions.
pub mod client;
pub mod codec;
pub mod filter;
pub mod json;
pub mod messages;
pub mod pending;
pub mod permissions;
pub mod text;
pub mod wire;
