use taimen::{Result, TaimenError};

#[test]
fn room_error_displays() {
    let err = TaimenError::Room("not found".into());
    assert_eq!(err.message(), "room error: not found");
}

#[test]
fn signal_error_displays() {
    let err = TaimenError::Signal("invalid offer".into());
    assert_eq!(err.message(), "signal error: invalid offer");
}

#[test]
fn media_error_displays() {
    let err = TaimenError::Media("codec unsupported".into());
    assert_eq!(err.message(), "media error: codec unsupported");
}

#[test]
fn auth_error_displays() {
    let err = TaimenError::Auth("unauthorized".into());
    assert_eq!(err.message(), "auth error: unauthorized");
}

#[test]
fn webrtc_error_displays() {
    let err = TaimenError::WebRTC("ice failed".into());
    assert_eq!(err.message(), "webrtc error: ice failed");
}

#[test]
fn capacity_error_displays() {
    let err = TaimenError::Capacity("room full".into());
    assert_eq!(err.message(), "capacity error: room full");
}

#[test]
fn result_alias_works() {
    let ok: Result<u32> = Ok(42);
    assert_eq!(ok.unwrap(), 42);

    let err: Result<u32> = Err(TaimenError::Room("gone".into()));
    assert!(err.is_err());
}

#[test]
fn empty_detail_keeps_prefix() {
    assert_eq!(TaimenError::Auth(String::new()).message(), "auth error: ");
}
