//! Participants: a user's identity and state within a room.
use vstd::prelude::*;
use crate::clock::{now, Timestamp};
use crate::ids::{new_id, VERSION_VARIANT_BITS, VERSION_VARIANT_MASK};

verus! {

/// Unique identifier for a participant.
pub type ParticipantId = u128;

/// A user's identity and state within a room.
#[derive(Debug, Clone)]
pub struct Participant {
    /// Unique participant identifier (assigned on join).
    pub id: ParticipantId,
    /// Stable user identifier (may equal `id` for guests).
    pub user_id: u128,
    /// Display name shown in the UI.
    pub display_name: String,
    /// The participant's role in the room.
    pub role: ParticipantRole,
    /// Whether the participant's microphone is muted.
    pub audio_muted: bool,
    /// Whether the participant's camera is off.
    pub video_muted: bool,
    /// Whether the participant is sharing their screen.
    pub screen_sharing: bool,
    /// Whether the participant has their hand raised.
    pub hand_raised: bool,
    /// When the participant joined the room.
    pub joined_at: Timestamp,
}

impl Participant {
    /// A newly made participant: the given user, name and role, with every
    /// flag cleared; its identifier and join time are whatever was drawn.
    pub open spec fn is_fresh(self, user_id: u128, display_name: Seq<char>, role: ParticipantRole) -> bool {
        &&& self.user_id == user_id
        &&& self.display_name@ == display_name
        &&& self.role == role
        &&& !self.audio_muted
        &&& !self.video_muted
        &&& !self.screen_sharing
        &&& !self.hand_raised
    }

    /// The participant with its raised-hand flag set to `raised`.
    pub open spec fn with_hand(self, raised: bool) -> Participant {
        Participant { hand_raised: raised, ..self }
    }

    /// The participant with its mute flags updated where a new value is given.
    pub open spec fn with_mute(self, audio: Option<bool>, video: Option<bool>) -> Participant {
        Participant {
            audio_muted: match audio {
                Some(m) => m,
                None => self.audio_muted,
            },
            video_muted: match video {
                Some(m) => m,
                None => self.video_muted,
            },
            ..self
        }
    }

    /// The participant with its screen-sharing flag set to `sharing`.
    pub open spec fn with_sharing(self, sharing: bool) -> Participant {
        Participant { screen_sharing: sharing, ..self }
    }

    /// Builds a participant from an identifier and a join time already drawn.
    pub fn from_parts(
        id: ParticipantId,
        user_id: u128,
        display_name: &str,
        role: ParticipantRole,
        joined_at: Timestamp,
    ) -> (p: Participant)
        ensures
            p.is_fresh(user_id, display_name@, role),
            p.id == id,
            p.joined_at == joined_at,
    {
        Participant {
            id,
            user_id,
            display_name: display_name.to_owned(),
            role,
            audio_muted: false,
            video_muted: false,
            screen_sharing: false,
            hand_raised: false,
            joined_at,
        }
    }

    /// Create a new participant with sensible defaults: a fresh random
    /// identifier, the current time, and every flag cleared.
    pub fn new(user_id: u128, display_name: &str, role: ParticipantRole) -> (p: Participant)
        ensures
            p.is_fresh(user_id, display_name@, role),
            p.id & VERSION_VARIANT_MASK == VERSION_VARIANT_BITS,
    {
        let id = new_id();
        let now = now();
        Participant::from_parts(id, user_id, display_name, role, now)
    }

    /// Toggle the hand-raised state and return the new value.
    pub fn toggle_hand(&mut self) -> (raised: bool)
        ensures
            *final(self) == old(self).with_hand(!old(self).hand_raised),
            raised == final(self).hand_raised,
    {
        self.hand_raised = !self.hand_raised;
        self.hand_raised
    }
}

/// Toggling the hand twice gives back the participant as it was.
pub proof fn toggle_hand_twice_restores(p: Participant)
    ensures
        p.with_hand(!p.hand_raised).with_hand(!p.with_hand(!p.hand_raised).hand_raised) == p,
{
}

/// A participant's role within a room, ordered by privilege.
#[derive(Debug, Clone, Copy, PartialEq, Eq, Structural)]
pub enum ParticipantRole {
    /// Created the room; full control.
    Host,
    /// Elevated permissions (mute others, kick).
    Moderator,
    /// Standard participant with audio/video.
    Participant,
    /// View-only; cannot send media.
    Viewer,
}

impl ParticipantRole {
    /// Whether a role may mute or kick others: exactly the host and moderators.
    pub open spec fn moderates(self) -> bool {
        self is Host || self is Moderator
    }

    /// Returns `true` if the role can mute or kick other participants.
    pub fn can_moderate(&self) -> (r: bool)
        ensures
            r == self.moderates(),
    {
        match self {
            ParticipantRole::Host | ParticipantRole::Moderator => true,
            _ => false,
        }
    }
}

} // verus!
