//! Accounts: signing up, signing in and changing credentials.

use vstd::prelude::*;
use crate::handler::{
    authenticating, empty_context, start, start_authenticated, work, work_stage, Action, Expect,
    Finale, Handler, OnFailure, Operation, Phase, Request, Source, Stage,
};
use crate::models::auth::User;
use crate::status::{CONFLICT, CREATED, INTERNAL_SERVER_ERROR, OK, UNAUTHORIZED};

verus! {

/// Signing up with `payload`: a refused sign-up is answered with 409, and a
/// failure to end the session with 500. The answer is 201 with the session
/// token as plain text.
pub fn create_user(payload: User) -> (r: (Handler, Action))
    ensures
        r.1 == Action::Perform(Operation::SignUp { credentials: payload }),
        r.0@.phase == (Phase::Waiting { expect: Expect::Token, on_failure: OnFailure::Answer(CONFLICT) }),
        r.0@.ctx == empty_context(),
        r.0@.pending == seq![work(Operation::Invalidate, OnFailure::Answer(INTERNAL_SERVER_ERROR))],
        r.0@.finale == (Finale { status: CREATED, source: Source::Token }),
{
    let mut stages = Vec::new();
    stages.push(work_stage(Operation::SignUp { credentials: payload }, OnFailure::Answer(CONFLICT)));
    stages.push(work_stage(Operation::Invalidate, OnFailure::Answer(INTERNAL_SERVER_ERROR)));
    start(stages, Finale { status: CREATED, source: Source::Token })
}

/// Signing in with `payload`: a refused sign-in is answered with 401, and a
/// failure to end the session with 500. The answer is 200 with the session
/// token as plain text.
pub fn login(payload: User) -> (r: (Handler, Action))
    ensures
        r.1 == Action::Perform(Operation::SignIn { credentials: payload }),
        r.0@.phase == (Phase::Waiting { expect: Expect::Token, on_failure: OnFailure::Answer(UNAUTHORIZED) }),
        r.0@.ctx == empty_context(),
        r.0@.pending == seq![work(Operation::Invalidate, OnFailure::Answer(INTERNAL_SERVER_ERROR))],
        r.0@.finale == (Finale { status: OK, source: Source::Token }),
{
    let mut stages = Vec::new();
    stages.push(work_stage(Operation::SignIn { credentials: payload }, OnFailure::Answer(UNAUTHORIZED)));
    stages.push(work_stage(Operation::Invalidate, OnFailure::Answer(INTERNAL_SERVER_ERROR)));
    start(stages, Finale { status: OK, source: Source::Token })
}

/// The stages that change the credentials of the authenticated user: the
/// email address when `payload` gives one, then the password when it gives
/// one, each answered with `on_failure` when it fails.
pub open spec fn credential_changes(payload: User, on_failure: OnFailure) -> Seq<Stage> {
    (if payload.email@.len() > 0 {
        seq![Stage { request: Request::ChangeEmail { email: payload.email }, on_failure }]
    } else {
        Seq::empty()
    }) + (if payload.password@.len() > 0 {
        seq![Stage { request: Request::ChangePassword { password: payload.password }, on_failure }]
    } else {
        Seq::empty()
    })
}

/// The stages that change the credentials of the authenticated user (see
/// [`credential_changes`]).
pub fn credential_change_stages(payload: User, on_failure: OnFailure) -> (v: Vec<Stage>)
    ensures
        v@ == credential_changes(payload, on_failure),
{
    let mut v = Vec::new();
    if !payload.email.as_str().is_empty() {
        v.push(Stage { request: Request::ChangeEmail { email: payload.email }, on_failure });
    }
    let ghost after_email = v@;
    if !payload.password.as_str().is_empty() {
        v.push(Stage { request: Request::ChangePassword { password: payload.password }, on_failure });
    }
    proof {
        if payload.password@.len() > 0 {
            assert(v@ =~= after_email + seq![
                Stage { request: Request::ChangePassword { password: payload.password }, on_failure },
            ]);
        } else {
            assert(v@ =~= after_email + Seq::<Stage>::empty());
        }
    }
    v
}

/// Changing the credentials of the user of `token`: the email address and the
/// password are set where `payload` gives them (an empty one is left as it
/// is); a failed change, or a failure to end the session, is answered with
/// 500. The answer is 201 with "meow".
pub fn update_credentials(token: String, payload: User) -> (r: (Handler, Action))
    ensures
        r.1 == Action::Perform(Operation::Authenticate { token }),
        authenticating(r.0),
        r.0@.pending == credential_changes(payload, OnFailure::Answer(INTERNAL_SERVER_ERROR)) + seq![
            work(Operation::Invalidate, OnFailure::Answer(INTERNAL_SERVER_ERROR)),
        ],
        r.0@.finale.status == CREATED,
        r.0@.finale.source matches Source::Text(t) && t@ == "meow"@,
{
    let mut rest = credential_change_stages(payload, OnFailure::Answer(INTERNAL_SERVER_ERROR));
    rest.push(work_stage(Operation::Invalidate, OnFailure::Answer(INTERNAL_SERVER_ERROR)));
    start_authenticated(token, rest, Finale { status: CREATED, source: Source::Text("meow".to_string()) })
}

} // verus!
