//! Background coordinator for a message-passing extension host.
//!
//! The crate models the message protocol, channel registry, request
//! dispatcher and streaming task engine of a background coordinator that
//! multiplexes long-lived bidirectional channels to foreground contexts.
//! Messages cross the host boundary as bytes; the host transport itself
//! (connect, disconnect and delivery events) lives outside this crate and
//! hands the coordinator plain values.

pub mod codec;
pub mod dispatch;
pub mod messages;
pub mod registry;
pub mod streaming;
