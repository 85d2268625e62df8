//! Files: creating, deleting and moving them.

use vstd::prelude::*;
use crate::handler::{
    authenticating, start_authenticated, work, work_stage, Action, Finale, Handler, OnFailure,
    Operation, Source,
};
use crate::models::file::{File, FileWrapper};
use crate::status::{CONFLICT, INTERNAL_SERVER_ERROR, OK};

verus! {

/// Creating the file `payload`: a failed creation is answered with 409, and a
/// failed lookup of the new file's id with 500. The answer is 200 with the
/// file's id.
pub fn create_file(token: String, payload: File) -> (r: (Handler, Action))
    ensures
        r.1 == Action::Perform(Operation::Authenticate { token }),
        authenticating(r.0),
        r.0@.pending == seq![
            work(Operation::CreateFile { file: payload }, OnFailure::Answer(CONFLICT)),
            work(Operation::FileId { file: payload }, OnFailure::Answer(INTERNAL_SERVER_ERROR)),
        ],
        r.0@.finale == (Finale { status: OK, source: Source::Found }),
{
    let copy = payload.duplicate();
    let mut rest = Vec::new();
    rest.push(work_stage(Operation::CreateFile { file: copy }, OnFailure::Answer(CONFLICT)));
    rest.push(work_stage(Operation::FileId { file: payload }, OnFailure::Answer(INTERNAL_SERVER_ERROR)));
    start_authenticated(token, rest, Finale { status: OK, source: Source::Found })
}

/// Deleting the file `payload.id`: a failed deletion is answered with 500.
/// The answer is 200 with "meow".
pub fn delete_file(token: String, payload: FileWrapper) -> (r: (Handler, Action))
    ensures
        r.1 == Action::Perform(Operation::Authenticate { token }),
        authenticating(r.0),
        r.0@.pending == seq![
            work(Operation::DeleteFile { id: payload.id }, OnFailure::Answer(INTERNAL_SERVER_ERROR)),
        ],
        r.0@.finale.status == OK,
        r.0@.finale.source matches Source::Text(t) && t@ == "meow"@,
{
    let mut rest = Vec::new();
    rest.push(work_stage(Operation::DeleteFile { id: payload.id }, OnFailure::Answer(INTERNAL_SERVER_ERROR)));
    start_authenticated(token, rest, Finale { status: OK, source: Source::Text("meow".to_string()) })
}

/// Moving the file `payload.id` to the parent and album of `payload`: a
/// failed update is answered with 500. The answer is 200 with "meow".
pub fn relocate_file(token: String, payload: FileWrapper) -> (r: (Handler, Action))
    ensures
        r.1 == Action::Perform(Operation::Authenticate { token }),
        authenticating(r.0),
        r.0@.pending == seq![
            work(
                Operation::Relocate {
                    id: payload.id,
                    new_parent: payload.file.directory.parent,
                    new_album: payload.file.directory.album,
                },
                OnFailure::Answer(INTERNAL_SERVER_ERROR),
            ),
        ],
        r.0@.finale.status == OK,
        r.0@.finale.source matches Source::Text(t) && t@ == "meow"@,
{
    let mut rest = Vec::new();
    rest.push(
        work_stage(
            Operation::Relocate {
                id: payload.id,
                new_parent: payload.file.directory.parent,
                new_album: payload.file.directory.album,
            },
            OnFailure::Answer(INTERNAL_SERVER_ERROR),
        ),
    );
    start_authenticated(token, rest, Finale { status: OK, source: Source::Text("meow".to_string()) })
}

} // verus!
