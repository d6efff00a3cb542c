//! Catalog records: the pure construction of drama forks and uploaded
//! scenes. The surrounding HTTP routing and persistence are plumbing and
//! live outside the library; the records they write are built — and
//! specified — here.

use vstd::prelude::*;

verus! {

/// A caller's request to fork a drama.
pub struct ForkRequest {
    /// Title of the fork.
    pub title: String,
    /// Description of the fork.
    pub description: String,
}

/// A caller's request to upload a scene to a drama.
pub struct SceneUpload {
    /// Position of the scene within the drama.
    pub scene_number: i32,
    /// Title of the scene.
    pub title: String,
    /// Where the scene's video lives.
    pub video_url: String,
    /// Transcript of the scene.
    pub transcript: String,
}

/// A drama: an original, or a fan fork of another drama.
pub struct Drama {
    /// Unique identifier of the drama.
    pub id: u128,
    /// Title of the drama.
    pub title: String,
    /// Description of the drama.
    pub description: String,
    /// Whether this is an official production.
    pub official: bool,
    /// The user who owns this drama.
    pub creator_id: u128,
    /// The drama this one was forked from; `None` for an original.
    pub forked_from: Option<u128>,
    /// Creation timestamp, in seconds.
    pub created_at: u64,
}

/// One scene of a drama.
pub struct Scene {
    /// Unique identifier of the scene.
    pub id: u128,
    /// The drama the scene belongs to.
    pub drama_id: u128,
    /// Position of the scene within the drama.
    pub scene_number: i32,
    /// Title of the scene.
    pub title: String,
    /// Where the scene's video lives.
    pub video_url: String,
    /// Transcript of the scene.
    pub transcript: String,
    /// The user who uploaded the scene.
    pub creator_id: u128,
    /// Creation timestamp, in seconds.
    pub created_at: u64,
}

/// Builds the record for a fork of `source_id`: a fork is never official,
/// always remembers what it was forked from, and carries the request's
/// title and description unchanged.
pub fn fork_record(source_id: u128, new_id: u128, creator_id: u128, req: ForkRequest, now: u64) -> (d:
    Drama)
    ensures
        d.id == new_id,
        d.title@ == req.title@,
        d.description@ == req.description@,
        d.official == false,
        d.creator_id == creator_id,
        d.forked_from == Some(source_id),
        d.created_at == now,
{
    Drama {
        id: new_id,
        title: req.title,
        description: req.description,
        official: false,
        creator_id,
        forked_from: Some(source_id),
        created_at: now,
    }
}

/// Builds the record for a scene uploaded to `drama_id`, carrying the
/// upload's fields unchanged.
pub fn scene_record(
    drama_id: u128,
    scene_id: u128,
    creator_id: u128,
    upload: SceneUpload,
    now: u64,
) -> (s: Scene)
    ensures
        s.id == scene_id,
        s.drama_id == drama_id,
        s.scene_number == upload.scene_number,
        s.title@ == upload.title@,
        s.video_url@ == upload.video_url@,
        s.transcript@ == upload.transcript@,
        s.creator_id == creator_id,
        s.created_at == now,
{
    Scene {
        id: scene_id,
        drama_id,
        scene_number: upload.scene_number,
        title: upload.title,
        video_url: upload.video_url,
        transcript: upload.transcript,
        creator_id,
        created_at: now,
    }
}

} // verus!
