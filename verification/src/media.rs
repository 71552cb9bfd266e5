//! Media tracks and media encoding configuration.
use vstd::prelude::*;
use crate::ids::{new_id, VERSION_VARIANT_BITS, VERSION_VARIANT_MASK};
use crate::participant::ParticipantId;

verus! {

/// Unique identifier for a media track.
pub type TrackId = u128;

/// A single media track belonging to a participant.
#[derive(Debug, Clone, Copy)]
pub struct MediaTrack {
    /// Unique track identifier.
    pub id: TrackId,
    /// What kind of media this track carries.
    pub kind: TrackKind,
    /// The participant who owns this track.
    pub participant_id: ParticipantId,
    /// Whether the track is currently sending data.
    pub enabled: bool,
}

impl MediaTrack {
    /// Builds an enabled track from an identifier already drawn.
    pub fn from_parts(id: TrackId, kind: TrackKind, participant_id: ParticipantId) -> (t: MediaTrack)
        ensures
            t == (MediaTrack { id, kind, participant_id, enabled: true }),
    {
        MediaTrack { id, kind, participant_id, enabled: true }
    }

    /// Create a new enabled media track with a fresh random identifier.
    pub fn new(kind: TrackKind, participant_id: ParticipantId) -> (t: MediaTrack)
        ensures
            t.kind == kind,
            t.participant_id == participant_id,
            t.enabled,
            t.id & VERSION_VARIANT_MASK == VERSION_VARIANT_BITS,
    {
        let id = new_id();
        MediaTrack::from_parts(id, kind, participant_id)
    }
}

/// The type of media carried by a track.
#[derive(Debug, Clone, Copy, PartialEq, Eq, Structural)]
pub enum TrackKind {
    /// Microphone audio.
    Audio,
    /// Camera video.
    Video,
    /// Screen-share stream (may contain both video and audio).
    ScreenShare,
}

/// Configuration for media encoding and quality.
#[derive(Debug, Clone)]
pub struct MediaConfig {
    /// Target video resolution (e.g. "1280x720").
    pub video_resolution: String,
    /// Target video frames per second.
    pub video_fps: u32,
    /// Preferred audio codec (e.g. "opus").
    pub audio_codec: String,
    /// Preferred video codec (e.g. "vp9", "h264", "av1").
    pub video_codec: String,
}

impl Default for MediaConfig {
    fn default() -> (c: MediaConfig)
        ensures
            c.video_resolution@ == "1280x720"@,
            c.video_fps == 30,
            c.audio_codec@ == "opus"@,
            c.video_codec@ == "vp9"@,
    {
        MediaConfig {
            video_resolution: "1280x720".to_owned(),
            video_fps: 30,
            audio_codec: "opus".to_owned(),
            video_codec: "vp9".to_owned(),
        }
    }
}

} // verus!
