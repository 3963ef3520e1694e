//! A replay-and-broadcast buffer for one byte stream.
//!
//! [`ConsoleMux`] keeps the most recent bytes of a stream in a fixed-size
//! ring, and relays every write to the consumers that are attached to it.

pub mod assets;
pub mod attach;
pub mod channel;
pub mod history;
pub mod mux;
pub mod registry;
pub mod ring;
pub mod subscriber;

pub use assets::{StaticFile, StaticResponse};
pub use attach::{AttachAction, ForwardAction, ForwardEvent, Forwarder, Replay};
pub use channel::Payload;
pub use mux::ConsoleMux;
pub use registry::{SubscriberRegistry, CONNECTION_BUFFER};
pub use ring::RingBuffer;
pub use subscriber::{SendOutcome, SubscriberState};
