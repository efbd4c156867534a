//! The message envelope exchanged between the command surface and the gateway.

use vstd::prelude::*;

verus! {

/// An event flowing from the command surface to protocol clients via a
/// channel's bus: either a chat line to forward, or an instruction to the
/// subscribers bound to a channel to terminate.
#[derive(Clone, Debug, PartialEq)]
pub enum Signal {
    /// A chat line to forward to joined protocol clients.
    UserMessage { sender_name: String, body: String, channel_name: String },
    /// Instructs subscribers bound to `channel_name` to close their sockets.
    Disconnect { channel_name: String },
}

/// The mathematical model of a `Signal`: the same shape over `Seq<char>`.
pub enum SignalView {
    UserMessage { sender_name: Seq<char>, body: Seq<char>, channel_name: Seq<char> },
    Disconnect { channel_name: Seq<char> },
}

impl View for Signal {
    type V = SignalView;

    open spec fn view(&self) -> SignalView {
        match self {
            Signal::UserMessage { sender_name, body, channel_name } => SignalView::UserMessage {
                sender_name: sender_name@,
                body: body@,
                channel_name: channel_name@,
            },
            Signal::Disconnect { channel_name } => SignalView::Disconnect {
                channel_name: channel_name@,
            },
        }
    }
}

} // verus!
