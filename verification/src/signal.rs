//! The signaling protocol.
//!
//! Clients connect to the signaling server over a WebSocket at
//! `/ws/{room_id}`; every message on the wire is a [`SignalMessage`].
//!
//! 1. A client sends [`SignalMessage::Join`] with its participant info.
//! 2. The server broadcasts the join to all other participants.
//! 3. Existing participants send [`SignalMessage::Offer`] to the new peer.
//! 4. The new peer answers each offer with [`SignalMessage::Answer`].
//! 5. Both sides exchange [`SignalMessage::IceCandidate`] until connected.
//! 6. Control messages (mute, raise hand, ...) may come at any time.
//! 7. When a participant disconnects, the server broadcasts
//!    [`SignalMessage::Leave`].
//!
//! The host or a moderator may send [`SignalMessage::EndRoom`]: the server
//! sends it to every connected client and tears down the room.
use vstd::prelude::*;
use crate::clock::Timestamp;
use crate::participant::ParticipantId;
use crate::room::RoomId;

verus! {

/// A message exchanged over the signaling WebSocket.
#[derive(Debug, Clone)]
pub enum SignalMessage {
    /// A participant wants to join the room.
    Join { room_id: RoomId, participant_id: ParticipantId, display_name: String },
    /// A participant has left (or been disconnected from) the room.
    Leave { room_id: RoomId, participant_id: ParticipantId },
    /// SDP offer for WebRTC negotiation.
    Offer { from: ParticipantId, to: ParticipantId, sdp: String },
    /// SDP answer for WebRTC negotiation.
    Answer { from: ParticipantId, to: ParticipantId, sdp: String },
    /// An ICE candidate for connection establishment.
    IceCandidate {
        from: ParticipantId,
        to: ParticipantId,
        candidate: String,
        sdp_mid: Option<String>,
        sdp_m_line_index: Option<u32>,
    },
    /// Participant muted their audio or video.
    Mute { participant_id: ParticipantId, kind: MuteKind },
    /// Participant unmuted their audio or video.
    Unmute { participant_id: ParticipantId, kind: MuteKind },
    /// Participant raised their hand.
    RaiseHand { participant_id: ParticipantId },
    /// Participant lowered their hand.
    LowerHand { participant_id: ParticipantId },
    /// Participant started screen-sharing.
    ScreenShare { participant_id: ParticipantId },
    /// Participant stopped screen-sharing.
    StopScreenShare { participant_id: ParticipantId },
    /// An in-room chat message.
    ChatMessage { id: u128, participant_id: ParticipantId, content: String, timestamp: Timestamp },
    /// A moderator/host kicks a participant from the room.
    Kick { participant_id: ParticipantId, reason: Option<String> },
    /// The host/moderator ends the room for everyone.
    EndRoom { room_id: RoomId },
}

/// Distinguishes audio and video for mute/unmute messages.
#[derive(Debug, Clone, Copy, PartialEq, Eq, Structural)]
pub enum MuteKind {
    Audio,
    Video,
}

} // verus!
