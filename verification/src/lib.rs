//! A node runtime for simulated distributed systems that speak
//! newline-delimited JSON: message envelopes, the init handshake, reply
//! correlation and the dispatch state machine, with verified contracts.
pub mod error;
pub mod fields;
pub mod ids;
pub mod init;
pub mod json;
pub mod message;
pub mod node;
pub mod runtime;
pub mod store;
pub mod text;
pub mod topology;
pub mod unique_ids;
pub mod wire;

pub use crate::error::{Failure, RuntimeError};
pub use crate::ids::IdAllocator;
pub use crate::init::{Init, InitPayload};
pub use crate::message::{Body, Event, Message};
pub use crate::node::Node;
pub use crate::runtime::{Input, Outcome, Runtime, Status};
pub use crate::wire::Payload;
