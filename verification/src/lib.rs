//! Guest-side bridge between a proxy host and the extension modules it loads.
//!
//! The host drives a module through a fixed set of entry points and offers it
//! a small set of imported calls. This crate holds everything the guest
//! decides: the shared vocabulary of numeric codes, the requests sent to the
//! host and the decoding of its replies, the capability traits that user
//! contexts implement, and the dispatcher that routes each entry point to the
//! context it names. Nothing here touches the host directly: a context hands
//! back the call it wants made and is resumed with the reply.

pub mod buffer;
pub mod client;
pub mod dispatcher;
pub mod error;
pub mod exports;
pub mod hello;
pub mod history;
pub mod hostcalls;
pub mod message;
pub mod query;
pub mod server;
pub mod text;
pub mod traits;
pub mod types;
pub mod wire;
