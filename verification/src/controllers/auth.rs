//! Accounts: signing up, signing in and changing credentials.

use vstd::prelude::*;
use crate::endpoints::auth::{credential_change_stages, credential_changes};
use crate::handler::{
    authenticating, empty_context, start, start_authenticated, work, work_stage, Action, Expect,
    Finale, Handler, OnFailure, Operation, Phase, Source,
};
use crate::models::auth::User;
use crate::status::{CONFLICT, CREATED, INTERNAL_SERVER_ERROR, UNAUTHORIZED};

verus! {

/// Signing up with `payload`: a refused sign-up is answered with 409, and a
/// failure to end the session with 500. The answer is 201 with the session
/// token as a JSON string.
pub fn create_user(payload: User) -> (r: (Handler, Action))
    ensures
        r.1 == Action::Perform(Operation::SignUp { credentials: payload }),
        r.0@.phase == (Phase::Waiting { expect: Expect::Token, on_failure: OnFailure::Answer(CONFLICT) }),
        r.0@.ctx == empty_context(),
        r.0@.pending == seq![work(Operation::Invalidate, OnFailure::Answer(INTERNAL_SERVER_ERROR))],
        r.0@.finale == (Finale { status: CREATED, source: Source::TokenJson }),
{
    let mut stages = Vec::new();
    stages.push(work_stage(Operation::SignUp { credentials: payload }, OnFailure::Answer(CONFLICT)));
    stages.push(work_stage(Operation::Invalidate, OnFailure::Answer(INTERNAL_SERVER_ERROR)));
    start(stages, Finale { status: CREATED, source: Source::TokenJson })
}

/// Signing in with `payload`: a refused sign-in is answered with 401, and a
/// failure to end the session with 500. The answer is 201 with the session
/// token as a JSON string.
pub fn login(payload: User) -> (r: (Handler, Action))
    ensures
        r.1 == Action::Perform(Operation::SignIn { credentials: payload }),
        r.0@.phase == (Phase::Waiting { expect: Expect::Token, on_failure: OnFailure::Answer(UNAUTHORIZED) }),
        r.0@.ctx == empty_context(),
        r.0@.pending == seq![work(Operation::Invalidate, OnFailure::Answer(INTERNAL_SERVER_ERROR))],
        r.0@.finale == (Finale { status: CREATED, source: Source::TokenJson }),
{
    let mut stages = Vec::new();
    stages.push(work_stage(Operation::SignIn { credentials: payload }, OnFailure::Answer(UNAUTHORIZED)));
    stages.push(work_stage(Operation::Invalidate, OnFailure::Answer(INTERNAL_SERVER_ERROR)));
    start(stages, Finale { status: CREATED, source: Source::TokenJson })
}

/// Changing the credentials of the user of `token`: the email address and the
/// password are set where `payload` gives them (an empty one is left as it
/// is); the service gives up on the request when a change fails, and answers a
/// failure to end the session with 500. The answer is 201 with "meow".
pub fn update_credentials(token: String, payload: User) -> (r: (Handler, Action))
    ensures
        r.1 == Action::Perform(Operation::Authenticate { token }),
        authenticating(r.0),
        r.0@.pending == credential_changes(payload, OnFailure::GiveUp) + seq![
            work(Operation::Invalidate, OnFailure::Answer(INTERNAL_SERVER_ERROR)),
        ],
        r.0@.finale.status == CREATED,
        r.0@.finale.source matches Source::Text(t) && t@ == "meow"@,
{
    let mut rest = credential_change_stages(payload, OnFailure::GiveUp);
    rest.push(work_stage(Operation::Invalidate, OnFailure::Answer(INTERNAL_SERVER_ERROR)));
    start_authenticated(token, rest, Finale { status: CREATED, source: Source::Text("meow".to_string()) })
}

} // verus!
