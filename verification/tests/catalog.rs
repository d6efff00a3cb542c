//! Exercises of the catalog record constructors.

use passkey_ceremony::catalog::{fork_record, scene_record, ForkRequest, SceneUpload};

#[test]
fn forks_are_unofficial_and_remember_their_source() {
    let req = ForkRequest { title: "Fan Cut".to_string(), description: "A remix".to_string() };
    let d = fork_record(11, 22, 33, req, 1_700_000_000);
    assert_eq!(d.id, 22);
    assert_eq!(d.title, "Fan Cut");
    assert_eq!(d.description, "A remix");
    assert!(!d.official);
    assert_eq!(d.creator_id, 33);
    assert_eq!(d.forked_from, Some(11));
    assert_eq!(d.created_at, 1_700_000_000);
}

#[test]
fn scene_records_carry_the_upload_unchanged() {
    let up = SceneUpload {
        scene_number: 4,
        title: "Opening".to_string(),
        video_url: "https://cdn.example/scene4".to_string(),
        transcript: "INT. NIGHT".to_string(),
    };
    let s = scene_record(11, 55, 33, up, 1_700_000_001);
    assert_eq!(s.id, 55);
    assert_eq!(s.drama_id, 11);
    assert_eq!(s.scene_number, 4);
    assert_eq!(s.title, "Opening");
    assert_eq!(s.video_url, "https://cdn.example/scene4");
    assert_eq!(s.transcript, "INT. NIGHT");
    assert_eq!(s.creator_id, 33);
    assert_eq!(s.created_at, 1_700_000_001);
}
