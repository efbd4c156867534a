//! A channel registry and protocol-emulation gateway: conversational channels
//! are bound to generated stream-channel names, and chat events are fanned out
//! to every protocol client joined to the matching channel.

pub mod bus;
pub mod protocol;
pub mod registry;
pub mod signal;

pub use protocol::Session;
pub use registry::Channel;
pub use registry::Registry;
pub use signal::Signal;
