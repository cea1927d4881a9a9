//! The streaming socket: what the server does with each frame a client sends,
//! and the channels it offers.
use vstd::prelude::*;

verus! {

/// A frame read from a client's socket, or a read error.
#[derive(Clone, Copy, Debug, PartialEq, Eq, Structural)]
pub enum FrameKind {
    Text,
    Close,
    Ping,
    Pong,
    Binary,
    Error,
}

/// What the receiving side of the socket does next.
#[derive(Clone, Copy, Debug, PartialEq, Eq, Structural)]
pub enum FrameAction {
    /// Hand the client message to the connection.
    Dispatch,
    /// Go on reading: pings and pongs, binary frames, and text that is no
    /// client message.
    Skip,
    /// Stop reading and close the connection.
    Stop,
}

/// The action for a frame; `parsed` says whether a text frame read as a
/// client message.
pub open spec fn frame_action_spec(kind: FrameKind, parsed: bool) -> FrameAction {
    match kind {
        FrameKind::Text => if parsed { FrameAction::Dispatch } else { FrameAction::Skip },
        FrameKind::Close | FrameKind::Error => FrameAction::Stop,
        FrameKind::Ping | FrameKind::Pong | FrameKind::Binary => FrameAction::Skip,
    }
}

/// Decides what to do with a frame from the client.
pub fn frame_action(kind: FrameKind, parsed: bool) -> (a: FrameAction)
    ensures
        a == frame_action_spec(kind, parsed),
{
    match kind {
        FrameKind::Text => if parsed {
            FrameAction::Dispatch
        } else {
            FrameAction::Skip
        },
        FrameKind::Close => FrameAction::Stop,
        FrameKind::Error => FrameAction::Stop,
        FrameKind::Ping => FrameAction::Skip,
        FrameKind::Pong => FrameAction::Skip,
        FrameKind::Binary => FrameAction::Skip,
    }
}

/// The channels a client may subscribe to, as the JSON text the server
/// answers with.
pub fn streaming_channels() -> (r: &'static str)
    ensures
        r@ == "{\n        \"channels\": [\n            \"homeTimeline\",\n            \"globalTimeline\",\n            \"hashtag\",\n            \"main\",\n            \"admin\",\n            \"queueStats\",\n            \"serverStats\"\n        ]\n    }"@,
{
    "{\n        \"channels\": [\n            \"homeTimeline\",\n            \"globalTimeline\",\n            \"hashtag\",\n            \"main\",\n            \"admin\",\n            \"queueStats\",\n            \"serverStats\"\n        ]\n    }"
}

} // verus!
