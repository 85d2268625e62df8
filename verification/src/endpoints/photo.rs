//! Photos: listing them.

use vstd::prelude::*;
use crate::handler::{
    authenticating, start_authenticated, work, work_stage, Action, Finale, Handler, OnFailure,
    Operation, Source,
};
use crate::status::{INTERNAL_SERVER_ERROR, OK};

verus! {

/// Listing all photos: a failed read is answered with 500, as is a failure to
/// end the session. The answer is 200 with the photos.
pub fn get_photos(token: String) -> (r: (Handler, Action))
    ensures
        r.1 == Action::Perform(Operation::Authenticate { token }),
        authenticating(r.0),
        r.0@.pending == seq![
            work(Operation::SelectPhotos, OnFailure::Answer(INTERNAL_SERVER_ERROR)),
            work(Operation::Invalidate, OnFailure::Answer(INTERNAL_SERVER_ERROR)),
        ],
        r.0@.finale == (Finale { status: OK, source: Source::Found }),
{
    let mut rest = Vec::new();
    rest.push(work_stage(Operation::SelectPhotos, OnFailure::Answer(INTERNAL_SERVER_ERROR)));
    rest.push(work_stage(Operation::Invalidate, OnFailure::Answer(INTERNAL_SERVER_ERROR)));
    start_authenticated(token, rest, Finale { status: OK, source: Source::Found })
}

} // verus!
