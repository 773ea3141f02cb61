//! What the submission form answers.

use crate::connections::{is_live, submitted, Connections, Submission};
use crate::protocol::{is_valid_song_id, valid_song_id};
use vstd::prelude::*;

verus! {

/// What the submission form answers.
#[derive(Clone, Copy, Debug, PartialEq, Eq, Structural)]
pub enum FormReply {
    /// The page with the form.
    Form,
    /// The page that confirms a submission.
    Success,
    /// A client error: no session with that id is live.
    InvalidSession,
    /// A client error: the track identifier has not the right length.
    InvalidSongId,
}

/// Answers a request for the submission form of session `id`: the form, if
/// the session is live.
pub fn get_submit(registry: &Connections, id: &str) -> (r: FormReply)
    ensures
        r == if is_live(registry@, id@) {
            FormReply::Form
        } else {
            FormReply::InvalidSession
        },
{
    if registry.contains(id) {
        FormReply::Form
    } else {
        FormReply::InvalidSession
    }
}

/// Answers a submission of `song_id` to session `id`. A track identifier of
/// the wrong length is a client error. Any other is handed to the session's
/// mailbox and confirmed, whether or not it could be delivered.
pub fn post_submit(registry: &mut Connections, id: &str, song_id: &str) -> (r: (
    FormReply,
    Submission,
))
    ensures
        r.0 == if valid_song_id(song_id@) {
            FormReply::Success
        } else {
            FormReply::InvalidSongId
        },
        if valid_song_id(song_id@) {
            submitted(old(registry)@, id@, song_id@, r.1, final(registry)@)
        } else {
            r.1 == Submission::NoSession && final(registry)@ == old(registry)@
        },
{
    if !is_valid_song_id(song_id) {
        return (FormReply::InvalidSongId, Submission::NoSession);
    }
    let outcome = registry.submit(id, song_id);
    (FormReply::Success, outcome)
}

} // verus!
