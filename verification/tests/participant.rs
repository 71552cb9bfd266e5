use taimen::clock::Timestamp;
use taimen::{Participant, ParticipantRole};
use uuid::Uuid;

#[test]
fn new_participant_defaults() {
    let uid = Uuid::new_v4().as_u128();
    let p = Participant::new(uid, "Alice", ParticipantRole::Participant);
    assert_eq!(p.user_id, uid);
    assert_eq!(p.display_name, "Alice");
    assert!(!p.audio_muted);
    assert!(!p.video_muted);
    assert!(!p.screen_sharing);
    assert!(!p.hand_raised);
}

#[test]
fn toggle_hand() {
    let mut p = Participant::new(Uuid::new_v4().as_u128(), "Bob", ParticipantRole::Participant);
    assert!(!p.hand_raised);
    assert!(p.toggle_hand());
    assert!(p.hand_raised);
    assert!(!p.toggle_hand());
    assert!(!p.hand_raised);
}

#[test]
fn role_moderation_privileges() {
    assert!(ParticipantRole::Host.can_moderate());
    assert!(ParticipantRole::Moderator.can_moderate());
    assert!(!ParticipantRole::Participant.can_moderate());
    assert!(!ParticipantRole::Viewer.can_moderate());
}

#[test]
fn participant_from_parts() {
    let p = Participant::from_parts(5, 6, "Dee", ParticipantRole::Viewer, Timestamp { secs: 1_000, nanos: 7 });
    assert_eq!(p.id, 5);
    assert_eq!(p.user_id, 6);
    assert_eq!(p.display_name, "Dee");
    assert_eq!(p.role, ParticipantRole::Viewer);
    assert_eq!(p.joined_at, Timestamp { secs: 1_000, nanos: 7 });
    assert!(!p.hand_raised);
}

#[test]
fn toggle_twice_restores_hand() {
    let mut p = Participant::from_parts(1, 2, "Eve", ParticipantRole::Host, Timestamp { secs: 0, nanos: 0 });
    p.hand_raised = true;
    p.toggle_hand();
    p.toggle_hand();
    assert!(p.hand_raised);
}
