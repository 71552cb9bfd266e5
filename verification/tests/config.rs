use taimen::config::{
    default_display_name, default_server_url, default_theme, default_video_resolution,
};
use taimen::TaimenConfig;

#[test]
fn default_config_values() {
    let cfg = TaimenConfig::default();
    assert_eq!(cfg.server_url, "ws://localhost:3000");
    assert_eq!(cfg.display_name, "Anonymous");
    assert!(!cfg.default_audio_muted);
    assert!(!cfg.default_video_muted);
    assert_eq!(cfg.video_resolution, "1280x720");
    assert_eq!(cfg.theme, "dark");
}

#[test]
fn bare_is_zero_opinion() {
    let b = TaimenConfig::bare();
    assert_eq!(b.server_url, "");
    assert_eq!(b.display_name, "");
    assert_eq!(b.video_resolution, "");
    assert_eq!(b.theme, "");
    assert!(!b.default_audio_muted);
    assert!(!b.default_video_muted);
}

#[test]
fn prescribed_matches_default() {
    let p = TaimenConfig::prescribed_default();
    let d = TaimenConfig::default();
    assert_eq!(p.server_url, d.server_url);
    assert_eq!(p.theme, d.theme);
}

#[test]
fn default_value_helpers() {
    assert_eq!(default_server_url(), "ws://localhost:3000");
    assert_eq!(default_display_name(), "Anonymous");
    assert_eq!(default_video_resolution(), "1280x720");
    assert_eq!(default_theme(), "dark");
}

#[test]
fn bare_and_prescribed_differ() {
    let b = TaimenConfig::bare();
    let p = TaimenConfig::prescribed_default();
    assert_ne!(b.server_url, p.server_url);
    assert_ne!(b.display_name, p.display_name);
    assert_ne!(b.video_resolution, p.video_resolution);
    assert_ne!(b.theme, p.theme);
}
