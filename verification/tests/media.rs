use taimen::{MediaConfig, MediaTrack, TrackKind};
use uuid::Uuid;

#[test]
fn new_track_is_enabled() {
    let pid = Uuid::new_v4().as_u128();
    let track = MediaTrack::new(TrackKind::Audio, pid);
    assert!(track.enabled);
    assert_eq!(track.kind, TrackKind::Audio);
    assert_eq!(track.participant_id, pid);
}

#[test]
fn new_tracks_get_distinct_random_ids() {
    let pid = Uuid::new_v4().as_u128();
    let a = MediaTrack::new(TrackKind::Video, pid);
    let b = MediaTrack::new(TrackKind::Video, pid);
    assert_ne!(a.id, b.id);
    assert_eq!(Uuid::from_u128(a.id).get_version_num(), 4);
}

#[test]
fn track_from_parts_keeps_id() {
    let t = MediaTrack::from_parts(7, TrackKind::ScreenShare, 9);
    assert_eq!(t.id, 7);
    assert_eq!(t.kind, TrackKind::ScreenShare);
    assert_eq!(t.participant_id, 9);
    assert!(t.enabled);
}

#[test]
fn default_media_config() {
    let cfg = MediaConfig::default();
    assert_eq!(cfg.video_resolution, "1280x720");
    assert_eq!(cfg.video_fps, 30);
    assert_eq!(cfg.audio_codec, "opus");
    assert_eq!(cfg.video_codec, "vp9");
}
