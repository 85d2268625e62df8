//! Directories: creating, reading, listing, deleting and moving them.

use vstd::prelude::*;
use crate::handler::{
    authenticating, start_authenticated, work, work_stage, Action, Finale, Handler, OnFailure,
    Operation, Source,
};
use crate::models::directory::{Directory, DirectoryWrapper};
use crate::models::thing::RecordId;
use crate::status::{CONFLICT, INTERNAL_SERVER_ERROR, OK};

verus! {

/// Creating the directory `payload`: a failed creation is answered with 409,
/// and a failed lookup of the new directory's id with 500. The answer is 200
/// with the directory's id.
pub fn create_directory(token: String, payload: Directory) -> (r: (Handler, Action))
    ensures
        r.1 == Action::Perform(Operation::Authenticate { token }),
        authenticating(r.0),
        r.0@.pending == seq![
            work(Operation::CreateDirectory { directory: payload }, OnFailure::Answer(CONFLICT)),
            work(Operation::DirectoryId { directory: payload }, OnFailure::Answer(INTERNAL_SERVER_ERROR)),
        ],
        r.0@.finale == (Finale { status: OK, source: Source::Found }),
{
    let copy = payload.duplicate();
    let mut rest = Vec::new();
    rest.push(work_stage(Operation::CreateDirectory { directory: copy }, OnFailure::Answer(CONFLICT)));
    rest.push(
        work_stage(Operation::DirectoryId { directory: payload }, OnFailure::Answer(INTERNAL_SERVER_ERROR)),
    );
    start_authenticated(token, rest, Finale { status: OK, source: Source::Found })
}

/// Reading the directory whose key is that of `payload`: a failed read is
/// answered with 500. The answer is 200 with the directory.
pub fn query_directory(token: String, payload: RecordId) -> (r: (Handler, Action))
    ensures
        r.1 == Action::Perform(Operation::Authenticate { token }),
        authenticating(r.0),
        r.0@.pending == seq![
            work(Operation::SelectDirectory { key: payload.key }, OnFailure::Answer(INTERNAL_SERVER_ERROR)),
        ],
        r.0@.finale == (Finale { status: OK, source: Source::Found }),
{
    let mut rest = Vec::new();
    rest.push(
        work_stage(Operation::SelectDirectory { key: payload.key }, OnFailure::Answer(INTERNAL_SERVER_ERROR)),
    );
    start_authenticated(token, rest, Finale { status: OK, source: Source::Found })
}

/// Listing the content of the directory `payload`: a failed query, or a
/// failure to take its subdirectories or its files out of the answer, is
/// answered with 500. The answer is 200 with the subdirectories and files.
pub fn query_subdirectory(token: String, payload: RecordId) -> (r: (Handler, Action))
    ensures
        r.1 == Action::Perform(Operation::Authenticate { token }),
        authenticating(r.0),
        r.0@.pending == seq![
            work(Operation::QueryChildren { parent: payload }, OnFailure::Answer(INTERNAL_SERVER_ERROR)),
            work(Operation::TakeDirectories, OnFailure::Answer(INTERNAL_SERVER_ERROR)),
            work(Operation::TakeFiles, OnFailure::Answer(INTERNAL_SERVER_ERROR)),
        ],
        r.0@.finale == (Finale { status: OK, source: Source::Listing }),
{
    let mut rest = Vec::new();
    rest.push(work_stage(Operation::QueryChildren { parent: payload }, OnFailure::Answer(INTERNAL_SERVER_ERROR)));
    rest.push(work_stage(Operation::TakeDirectories, OnFailure::Answer(INTERNAL_SERVER_ERROR)));
    rest.push(work_stage(Operation::TakeFiles, OnFailure::Answer(INTERNAL_SERVER_ERROR)));
    start_authenticated(token, rest, Finale { status: OK, source: Source::Listing })
}

/// Deleting the directory `payload.id` with everything below it: a failure is
/// answered with 500. The answer is 200 with "meow".
pub fn delete_directory(token: String, payload: DirectoryWrapper) -> (r: (Handler, Action))
    ensures
        r.1 == Action::Perform(Operation::Authenticate { token }),
        authenticating(r.0),
        r.0@.pending == seq![
            work(Operation::DeleteDirectoryTree { id: payload.id }, OnFailure::Answer(INTERNAL_SERVER_ERROR)),
        ],
        r.0@.finale.status == OK,
        r.0@.finale.source matches Source::Text(t) && t@ == "meow"@,
{
    let mut rest = Vec::new();
    rest.push(
        work_stage(Operation::DeleteDirectoryTree { id: payload.id }, OnFailure::Answer(INTERNAL_SERVER_ERROR)),
    );
    start_authenticated(token, rest, Finale { status: OK, source: Source::Text("meow".to_string()) })
}

/// Moving the directory `payload.id` to the parent and album of `payload`: a
/// failed update is answered with 500. The answer is 200 with "meow".
pub fn relocate_directory(token: String, payload: DirectoryWrapper) -> (r: (Handler, Action))
    ensures
        r.1 == Action::Perform(Operation::Authenticate { token }),
        authenticating(r.0),
        r.0@.pending == seq![
            work(
                Operation::Relocate {
                    id: payload.id,
                    new_parent: payload.directory.parent,
                    new_album: payload.directory.album,
                },
                OnFailure::Answer(INTERNAL_SERVER_ERROR),
            ),
        ],
        r.0@.finale.status == OK,
        r.0@.finale.source matches Source::Text(t) && t@ == "meow"@,
{
    let mut rest = Vec::new();
    rest.push(
        work_stage(
            Operation::Relocate {
                id: payload.id,
                new_parent: payload.directory.parent,
                new_album: payload.directory.album,
            },
            OnFailure::Answer(INTERNAL_SERVER_ERROR),
        ),
    );
    start_authenticated(token, rest, Finale { status: OK, source: Source::Text("meow".to_string()) })
}

} // verus!
