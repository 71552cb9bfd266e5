//! Taimen: rooms, participants, signaling decisions and the in-memory store
//! of a video-conferencing server, with their contracts.

pub mod api;
pub mod clock;
pub mod config;
pub mod error;
pub mod ids;
pub mod mcp;
pub mod media;
pub mod participant;
pub mod render;
pub mod room;
pub mod signal;
pub mod scripting;
pub mod signaling;
pub mod storage;
pub mod tables;
pub mod text;

pub use config::TaimenConfig;
pub use error::{Result, TaimenError};
pub use media::{MediaConfig, MediaTrack, TrackKind};
pub use participant::{Participant, ParticipantRole};
pub use room::{Room, RoomConfig, RoomState};
pub use signal::SignalMessage;
