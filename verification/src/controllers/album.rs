//! Albums: creating, renaming, listing and deleting them.

use vstd::prelude::*;
use crate::handler::{
    authenticating, start_authenticated, work, work_stage, Action, Finale, Handler, OnFailure,
    Operation, Request, Source, Stage,
};
use crate::models::album::Album;
use crate::status::{CONFLICT, INTERNAL_SERVER_ERROR, OK};

verus! {

/// Creating an album for the user of `token`, with the label and path of
/// `payload`: a failed creation is answered with 409, and a failed lookup of
/// the new album's id by its path with 500, each after ending the session; on
/// success the session ends too. The answer is 200 with the album's id.
pub fn create_album(token: String, payload: Album) -> (r: (Handler, Action))
    ensures
        r.1 == Action::Perform(Operation::Authenticate { token }),
        authenticating(r.0),
        r.0@.pending == seq![
            Stage {
                request: Request::CreateOwnedAlbum { label: payload.label, path: payload.path },
                on_failure: OnFailure::InvalidateThenAnswer(CONFLICT),
            },
            work(
                Operation::AlbumId { path: payload.path },
                OnFailure::InvalidateThenAnswer(INTERNAL_SERVER_ERROR),
            ),
            work(Operation::Invalidate, OnFailure::GiveUp),
        ],
        r.0@.finale == (Finale { status: OK, source: Source::Found }),
{
    let path = payload.path.clone();
    let mut rest = Vec::new();
    rest.push(
        Stage {
            request: Request::CreateOwnedAlbum { label: payload.label, path: payload.path },
            on_failure: OnFailure::InvalidateThenAnswer(CONFLICT),
        },
    );
    rest.push(
        work_stage(Operation::AlbumId { path }, OnFailure::InvalidateThenAnswer(INTERNAL_SERVER_ERROR)),
    );
    rest.push(work_stage(Operation::Invalidate, OnFailure::GiveUp));
    start_authenticated(token, rest, Finale { status: OK, source: Source::Found })
}

/// Renaming the album `payload.id` to `payload.label`: a failed update is
/// answered with 500; otherwise the session ends. The answer is 200 with
/// "meow".
pub fn rename_album(token: String, payload: Album) -> (r: (Handler, Action))
    ensures
        r.1 == Action::Perform(Operation::Authenticate { token }),
        authenticating(r.0),
        r.0@.pending == seq![
            work(
                Operation::RenameAlbum { id: payload.id, label: payload.label },
                OnFailure::Answer(INTERNAL_SERVER_ERROR),
            ),
            work(Operation::Invalidate, OnFailure::GiveUp),
        ],
        r.0@.finale.status == OK,
        r.0@.finale.source matches Source::Text(t) && t@ == "meow"@,
{
    let mut rest = Vec::new();
    rest.push(
        work_stage(
            Operation::RenameAlbum { id: payload.id, label: payload.label },
            OnFailure::Answer(INTERNAL_SERVER_ERROR),
        ),
    );
    rest.push(work_stage(Operation::Invalidate, OnFailure::GiveUp));
    start_authenticated(token, rest, Finale { status: OK, source: Source::Text("meow".to_string()) })
}

/// Listing all albums: a failed read is answered with 500 after ending the
/// session; on success the session ends too. The answer is 200 with the
/// albums.
pub fn get_albums(token: String) -> (r: (Handler, Action))
    ensures
        r.1 == Action::Perform(Operation::Authenticate { token }),
        authenticating(r.0),
        r.0@.pending == seq![
            work(Operation::SelectAlbums, OnFailure::InvalidateThenAnswer(INTERNAL_SERVER_ERROR)),
            work(Operation::Invalidate, OnFailure::GiveUp),
        ],
        r.0@.finale == (Finale { status: OK, source: Source::Found }),
{
    let mut rest = Vec::new();
    rest.push(work_stage(Operation::SelectAlbums, OnFailure::InvalidateThenAnswer(INTERNAL_SERVER_ERROR)));
    rest.push(work_stage(Operation::Invalidate, OnFailure::GiveUp));
    start_authenticated(token, rest, Finale { status: OK, source: Source::Found })
}

/// Deleting the album `payload.id`: the service gives up on a request whose
/// album has no id once its token is authenticated; the session ends after the
/// deletion, and a failed deletion is then answered with 500. The answer is
/// 200 with "meow".
pub fn delete_album(token: String, payload: Album) -> (r: (Handler, Action))
    ensures
        r.1 == Action::Perform(Operation::Authenticate { token }),
        authenticating(r.0),
        r.0@.pending == seq![
            Stage {
                request: Request::DeleteAlbum { id: payload.id },
                on_failure: OnFailure::InvalidateThenAnswer(INTERNAL_SERVER_ERROR),
            },
            work(Operation::Invalidate, OnFailure::GiveUp),
        ],
        r.0@.finale.status == OK,
        r.0@.finale.source matches Source::Text(t) && t@ == "meow"@,
{
    let mut rest = Vec::new();
    rest.push(
        Stage {
            request: Request::DeleteAlbum { id: payload.id },
            on_failure: OnFailure::InvalidateThenAnswer(INTERNAL_SERVER_ERROR),
        },
    );
    rest.push(work_stage(Operation::Invalidate, OnFailure::GiveUp));
    start_authenticated(token, rest, Finale { status: OK, source: Source::Text("meow".to_string()) })
}

} // verus!
