//! The steps of a request handler.
//!
//! Every request handler of the service is a fixed sequence of stages: each
//! stage asks for one piece of database work, and says how a failure of that
//! work is answered. A [`Handler`] runs such a sequence: the program around
//! the library performs each [`Action::Perform`] it is given, reports the
//! outcome as an [`Event`], and sends the [`Action::Reply`] that ends the
//! request.

use vstd::prelude::*;
use crate::models::album::Album;
use crate::models::auth::User;
use crate::models::directory::{Directory, DirectoryReturn, DirectoryWrapper};
use crate::models::file::{File, FileWrapper};
use crate::models::photo::Photo;
use crate::models::thing::{duplicate_option, RecordId, RecordKey};
use crate::reply::{Body, Reply};

verus! {

/// A piece of database work, with everything it needs filled in.
#[derive(Debug, PartialEq, Eq)]
pub enum Operation {
    /// Authenticate the session with a bearer token.
    Authenticate { token: String },
    /// Create an account in the service's scope.
    SignUp { credentials: User },
    /// Sign in to an account in the service's scope.
    SignIn { credentials: User },
    /// Create an album record.
    CreateAlbum { album: Album },
    /// Create a directory record.
    CreateDirectory { directory: Directory },
    /// Create a file record.
    CreateFile { file: File },
    /// Look up the id of the album with this path.
    AlbumId { path: String },
    /// Look up the id of this directory.
    DirectoryId { directory: Directory },
    /// Look up the id of this file.
    FileId { file: File },
    /// Set the label of an album.
    RenameAlbum { id: Option<RecordId>, label: String },
    /// Set the email address of an account.
    UpdateEmail { user: RecordId, email: String },
    /// Set the password of an account (the database hashes it).
    UpdatePassword { user: RecordId, password: String },
    /// Move a directory or a file to another parent and album.
    Relocate { id: RecordId, new_parent: Option<RecordId>, new_album: Option<RecordId> },
    /// Read all albums.
    SelectAlbums,
    /// Read all photos.
    SelectPhotos,
    /// Read the directory with this key.
    SelectDirectory { key: RecordKey },
    /// Query the subdirectories and the files of a directory.
    QueryChildren { parent: RecordId },
    /// Take the subdirectories out of the last query's answer.
    TakeDirectories,
    /// Take the files out of the last query's answer.
    TakeFiles,
    /// Delete an album record.
    DeleteAlbum { id: RecordId },
    /// Delete a directory and everything below it.
    DeleteDirectoryTree { id: RecordId },
    /// Delete a file record.
    DeleteFile { id: RecordId },
    /// End the session's authentication.
    Invalidate,
}

/// The kind of outcome that a piece of work succeeds with.
#[derive(Debug, PartialEq, Eq, Clone, Copy, Structural)]
pub enum Expect {
    /// Success with nothing to report.
    Done,
    /// The authenticated user.
    User,
    /// A session token.
    Token,
    /// A record id in text form.
    Id,
    /// A list of albums.
    Albums,
    /// A list of photos.
    Photos,
    /// One directory.
    Directory,
    /// A list of directories.
    Directories,
    /// A list of files.
    Files,
}

/// How a piece of work ended, as the program around the library reports it.
#[derive(Debug, PartialEq, Eq)]
pub enum Event {
    Done,
    Authenticated(RecordId),
    Token(String),
    Id(String),
    Albums(Vec<Album>),
    Photos(Vec<Photo>),
    Directory(DirectoryWrapper),
    Directories(Vec<DirectoryWrapper>),
    Files(Vec<FileWrapper>),
    /// The work failed, with the error's text.
    Failed(String),
}

impl Operation {
    /// The kind of outcome this work succeeds with.
    pub open spec fn kind(&self) -> Expect {
        match self {
            Operation::Authenticate { .. } => Expect::User,
            Operation::SignUp { .. } => Expect::Token,
            Operation::SignIn { .. } => Expect::Token,
            Operation::AlbumId { .. } => Expect::Id,
            Operation::DirectoryId { .. } => Expect::Id,
            Operation::FileId { .. } => Expect::Id,
            Operation::SelectAlbums => Expect::Albums,
            Operation::SelectPhotos => Expect::Photos,
            Operation::SelectDirectory { .. } => Expect::Directory,
            Operation::TakeDirectories => Expect::Directories,
            Operation::TakeFiles => Expect::Files,
            _ => Expect::Done,
        }
    }

    /// The kind of outcome this work succeeds with.
    pub fn expected(&self) -> (x: Expect)
        ensures
            x == self.kind(),
    {
        match self {
            Operation::Authenticate { .. } => Expect::User,
            Operation::SignUp { .. } => Expect::Token,
            Operation::SignIn { .. } => Expect::Token,
            Operation::AlbumId { .. } => Expect::Id,
            Operation::DirectoryId { .. } => Expect::Id,
            Operation::FileId { .. } => Expect::Id,
            Operation::SelectAlbums => Expect::Albums,
            Operation::SelectPhotos => Expect::Photos,
            Operation::SelectDirectory { .. } => Expect::Directory,
            Operation::TakeDirectories => Expect::Directories,
            Operation::TakeFiles => Expect::Files,
            _ => Expect::Done,
        }
    }
}

impl Event {
    /// Whether this event is a success of kind `x`.
    pub open spec fn succeeds_as(&self, x: Expect) -> bool {
        match self {
            Event::Done => x == Expect::Done,
            Event::Authenticated(_) => x == Expect::User,
            Event::Token(_) => x == Expect::Token,
            Event::Id(_) => x == Expect::Id,
            Event::Albums(_) => x == Expect::Albums,
            Event::Photos(_) => x == Expect::Photos,
            Event::Directory(_) => x == Expect::Directory,
            Event::Directories(_) => x == Expect::Directories,
            Event::Files(_) => x == Expect::Files,
            Event::Failed(_) => false,
        }
    }

    /// Whether this event is a success of kind `x`.
    pub fn is_success_of(&self, x: Expect) -> (b: bool)
        ensures
            b == self.succeeds_as(x),
    {
        match self {
            Event::Done => x == Expect::Done,
            Event::Authenticated(_) => x == Expect::User,
            Event::Token(_) => x == Expect::Token,
            Event::Id(_) => x == Expect::Id,
            Event::Albums(_) => x == Expect::Albums,
            Event::Photos(_) => x == Expect::Photos,
            Event::Directory(_) => x == Expect::Directory,
            Event::Directories(_) => x == Expect::Directories,
            Event::Files(_) => x == Expect::Files,
            Event::Failed(_) => false,
        }
    }
}

/// What a handler has learnt from the work done so far.
#[derive(Debug, PartialEq, Eq)]
pub struct Context {
    /// The authenticated user.
    pub user: Option<RecordId>,
    /// The last record id or records read, as they would be sent.
    pub found: Option<Body>,
    /// The subdirectories taken out of a query's answer.
    pub directories: Option<Vec<DirectoryWrapper>>,
    /// The files taken out of a query's answer.
    pub files: Option<Vec<FileWrapper>>,
    /// The session token of a sign-up or sign-in.
    pub token: Option<String>,
}

/// The context of a handler that has done no work yet.
pub open spec fn empty_context() -> Context {
    Context { user: None, found: None, directories: None, files: None, token: None }
}

/// The context with what a successful event reports added to it.
pub open spec fn record(ctx: Context, e: Event) -> Context {
    match e {
        Event::Authenticated(u) => Context { user: Some(u), ..ctx },
        Event::Token(t) => Context { token: Some(t), ..ctx },
        Event::Id(s) => Context { found: Some(Body::Text(s)), ..ctx },
        Event::Albums(v) => Context { found: Some(Body::Albums(v)), ..ctx },
        Event::Photos(v) => Context { found: Some(Body::Photos(v)), ..ctx },
        Event::Directory(d) => Context { found: Some(Body::Directory(d)), ..ctx },
        Event::Directories(v) => Context { directories: Some(v), ..ctx },
        Event::Files(v) => Context { files: Some(v), ..ctx },
        _ => ctx,
    }
}

/// A stage's work, as the handler is given it. Most work is given in full;
/// some takes what an earlier stage learnt.
#[derive(Debug, PartialEq, Eq)]
pub enum Request {
    /// This work, as given.
    Fixed(Operation),
    /// Create an album owned by the authenticated user.
    CreateOwnedAlbum { label: String, path: String },
    /// Delete the album with this id; an album without an id cannot be deleted.
    DeleteAlbum { id: Option<RecordId> },
    /// Set the authenticated user's email address.
    ChangeEmail { email: String },
    /// Set the authenticated user's password.
    ChangePassword { password: String },
}

/// Whether the work of `req` can be filled in from `ctx`.
pub open spec fn resolvable(req: Request, ctx: Context) -> bool {
    match req {
        Request::Fixed(_) => true,
        Request::DeleteAlbum { id } => id is Some,
        _ => ctx.user is Some,
    }
}

/// The work of `req`, filled in from `ctx`.
pub open spec fn resolved(req: Request, ctx: Context) -> Operation {
    match req {
        Request::Fixed(op) => op,
        Request::CreateOwnedAlbum { label, path } => Operation::CreateAlbum {
            album: Album { label, path, owner: ctx.user, id: None },
        },
        Request::DeleteAlbum { id } => Operation::DeleteAlbum { id: id.unwrap() },
        Request::ChangeEmail { email } => Operation::UpdateEmail { user: ctx.user.unwrap(), email },
        Request::ChangePassword { password } => Operation::UpdatePassword {
            user: ctx.user.unwrap(),
            password,
        },
    }
}

impl Request {
    /// Whether the work can be filled in from `ctx`.
    fn can_resolve(&self, user_known: bool) -> (b: bool)
        ensures
            forall|ctx: Context| (ctx.user is Some) == user_known ==> b == resolvable(*self, ctx),
    {
        match self {
            Request::Fixed(_) => true,
            Request::DeleteAlbum { id } => id.is_some(),
            _ => user_known,
        }
    }

    /// The work, filled in from `ctx`.
    pub fn resolve(self, ctx: &Context) -> (op: Operation)
        requires
            resolvable(self, *ctx),
        ensures
            op == resolved(self, *ctx),
    {
        match self {
            Request::Fixed(op) => op,
            Request::CreateOwnedAlbum { label, path } => Operation::CreateAlbum {
                album: Album { label, path, owner: duplicate_option(&ctx.user), id: None },
            },
            Request::DeleteAlbum { id } => Operation::DeleteAlbum { id: id.unwrap() },
            Request::ChangeEmail { email } => Operation::UpdateEmail {
                user: ctx.user.as_ref().unwrap().duplicate(),
                email,
            },
            Request::ChangePassword { password } => Operation::UpdatePassword {
                user: ctx.user.as_ref().unwrap().duplicate(),
                password,
            },
        }
    }
}

/// How the failure of a stage's work is answered.
#[derive(Debug, PartialEq, Eq, Clone, Copy)]
pub enum OnFailure {
    /// With this status and the error's text.
    Answer(u16),
    /// The session's authentication is ended first (which must succeed), then
    /// the failure is answered with this status and the error's text.
    InvalidateThenAnswer(u16),
    /// The service gives up on the request without an answer.
    GiveUp,
}

/// A stage: its work and how its failure is answered.
#[derive(Debug, PartialEq, Eq)]
pub struct Stage {
    pub request: Request,
    pub on_failure: OnFailure,
}

/// Where the body of the final answer comes from.
#[derive(Debug, PartialEq, Eq)]
pub enum Source {
    /// This text.
    Text(String),
    /// The last record id or records read.
    Found,
    /// The subdirectories and files taken out of a query.
    Listing,
    /// The session token, as plain text.
    Token,
    /// The session token, as a JSON string.
    TokenJson,
}

/// The answer once every stage has succeeded.
#[derive(Debug, PartialEq, Eq)]
pub struct Finale {
    pub status: u16,
    pub source: Source,
}

/// Whether the body of the final answer can be made from `ctx`.
pub open spec fn answerable(source: Source, ctx: Context) -> bool {
    match source {
        Source::Text(_) => true,
        Source::Found => ctx.found is Some,
        Source::Listing => ctx.directories is Some && ctx.files is Some,
        _ => ctx.token is Some,
    }
}

/// The body of the final answer, made from `ctx`.
pub open spec fn final_body(source: Source, ctx: Context) -> Body {
    match source {
        Source::Text(s) => Body::Text(s),
        Source::Found => ctx.found.unwrap(),
        Source::Listing => Body::Listing(
            DirectoryReturn { directories: ctx.directories.unwrap(), files: ctx.files.unwrap() },
        ),
        Source::Token => Body::Text(ctx.token.unwrap()),
        Source::TokenJson => Body::TokenJson(ctx.token.unwrap()),
    }
}

/// Where a handler stands.
#[derive(Debug, PartialEq, Eq)]
pub enum Phase {
    /// A stage's work is under way; it succeeds with an outcome of kind
    /// `expect`, and a failure is answered as `on_failure` says.
    Waiting { expect: Expect, on_failure: OnFailure },
    /// The session's authentication is being ended before a failure is
    /// answered with this status and message.
    CleaningUp { status: u16, message: String },
    /// The request has been answered.
    Finished,
}

/// What the program around the library is to do next.
#[derive(Debug, PartialEq, Eq)]
pub enum Action {
    /// Do this work and report how it ended.
    Perform(Operation),
    /// Send this answer; the request is over.
    Reply(Reply),
}

/// A request handler under way.
#[derive(Debug, PartialEq, Eq)]
pub struct Handler {
    pending: Vec<Stage>,
    finale: Finale,
    ctx: Context,
    phase: Phase,
}

/// What a [`Handler`] stands for.
pub struct HandlerState {
    /// The stages whose work has not started yet, in order.
    pub pending: Seq<Stage>,
    /// The answer once every stage has succeeded.
    pub finale: Finale,
    /// What the work so far has reported.
    pub ctx: Context,
    /// Where the handler stands.
    pub phase: Phase,
}

impl View for Handler {
    type V = HandlerState;

    closed spec fn view(&self) -> HandlerState {
        HandlerState { pending: self.pending@, finale: self.finale, ctx: self.ctx, phase: self.phase }
    }
}

impl Handler {
    /// How many stages have not started yet.
    pub fn stages_left(&self) -> (n: usize)
        ensures
            n == self@.pending.len(),
    {
        self.pending.len()
    }
}

/// No work is done for a request before its token is authenticated: the user
/// is known, or the handler waits for the authentication (whose failure is
/// answered directly), or the request has been answered.
pub open spec fn gated(h: Handler) -> bool {
    ||| h@.ctx.user is Some
    ||| h@.phase matches Phase::Waiting { expect: Expect::User, on_failure: OnFailure::Answer(_) }
    ||| h@.phase is Finished
}

impl Handler {
    /// The most actions the handler can still ask for: the work of the
    /// remaining stages and the final answer, or the end of the session and the
    /// answer to a failure.
    pub open spec fn budget(&self) -> nat {
        match self@.phase {
            Phase::Waiting { .. } => self@.pending.len() + 2,
            Phase::CleaningUp { .. } => 1,
            Phase::Finished => 0,
        }
    }

    /// The kind of success the handler waits for, if it waits for one.
    pub open spec fn awaits(&self) -> Option<Expect> {
        match self@.phase {
            Phase::Waiting { expect, .. } => Some(expect),
            Phase::CleaningUp { .. } => Some(Expect::Done),
            Phase::Finished => None,
        }
    }

    /// The events that can report how the work under way ended, leaving out
    /// those on which the service gives up on the request without an answer:
    /// the failure of work whose failure it does not handle, the failure of
    /// ending the session before an error is answered, and reaching an album
    /// deletion for an album without an id.
    pub open spec fn admits(&self, e: &Event) -> bool {
        match self@.phase {
            Phase::Waiting { expect, on_failure } => match e {
                Event::Failed(_) => !(on_failure is GiveUp),
                _ => {
                    &&& e.succeeds_as(expect)
                    &&& if self@.pending.len() > 0 {
                        resolvable(self@.pending[0].request, record(self@.ctx, *e))
                    } else {
                        answerable(self@.finale.source, record(self@.ctx, *e))
                    }
                },
            },
            Phase::CleaningUp { .. } => *e is Done,
            Phase::Finished => false,
        }
    }

    /// Whether `e` is admitted (see [`Handler::admits`]).
    pub fn accepts(&self, e: &Event) -> (b: bool)
        ensures
            b == self.admits(e),
    {
        match &self.phase {
            Phase::Waiting { expect, on_failure } => match e {
                Event::Failed(_) => !matches!(on_failure, OnFailure::GiveUp),
                _ => {
                    if !e.is_success_of(*expect) {
                        return false;
                    }
                    let user_known = self.ctx.user.is_some() || matches!(e, Event::Authenticated(_));
                    if self.pending.len() > 0 {
                        self.pending[0].request.can_resolve(user_known)
                    } else {
                        match &self.finale.source {
                            Source::Text(_) => true,
                            Source::Found => self.ctx.found.is_some() || matches!(
                                e,
                                Event::Id(_) | Event::Albums(_) | Event::Photos(_) | Event::Directory(_)
                            ),
                            Source::Listing => (self.ctx.directories.is_some() || matches!(
                                e,
                                Event::Directories(_)
                            )) && (self.ctx.files.is_some() || matches!(e, Event::Files(_))),
                            _ => self.ctx.token.is_some() || matches!(e, Event::Token(_)),
                        }
                    }
                },
            },
            Phase::CleaningUp { .. } => matches!(e, Event::Done),
            Phase::Finished => false,
        }
    }
}

/// The context with what a successful event reports added to it.
fn record_event(ctx: Context, e: Event) -> (r: Context)
    ensures
        r == record(ctx, e),
{
    match e {
        Event::Authenticated(u) => Context { user: Some(u), ..ctx },
        Event::Token(t) => Context { token: Some(t), ..ctx },
        Event::Id(s) => Context { found: Some(Body::Text(s)), ..ctx },
        Event::Albums(v) => Context { found: Some(Body::Albums(v)), ..ctx },
        Event::Photos(v) => Context { found: Some(Body::Photos(v)), ..ctx },
        Event::Directory(d) => Context { found: Some(Body::Directory(d)), ..ctx },
        Event::Directories(v) => Context { directories: Some(v), ..ctx },
        Event::Files(v) => Context { files: Some(v), ..ctx },
        _ => ctx,
    }
}

/// The body of the final answer, made from `ctx`.
fn make_body(source: &Source, ctx: Context) -> (b: Body)
    requires
        answerable(*source, ctx),
    ensures
        b == final_body(*source, ctx),
{
    match source {
        Source::Text(s) => Body::Text(s.clone()),
        Source::Found => ctx.found.unwrap(),
        Source::Listing => Body::Listing(
            DirectoryReturn { directories: ctx.directories.unwrap(), files: ctx.files.unwrap() },
        ),
        Source::Token => Body::Text(ctx.token.unwrap()),
        Source::TokenJson => Body::TokenJson(ctx.token.unwrap()),
    }
}

/// A context that holds nothing.
fn new_context() -> (c: Context)
    ensures
        c == empty_context(),
{
    Context { user: None, found: None, directories: None, files: None, token: None }
}

/// Starting a handler on its stages: the first stage's work is asked for.
pub fn start(stages: Vec<Stage>, finale: Finale) -> (r: (Handler, Action))
    requires
        stages@.len() > 0,
        resolvable(stages@[0].request, empty_context()),
    ensures
        r.0@.pending == stages@.drop_first(),
        r.0@.finale == finale,
        r.0@.ctx == empty_context(),
        r.0@.phase == (Phase::Waiting {
            expect: resolved(stages@[0].request, empty_context()).kind(),
            on_failure: stages@[0].on_failure,
        }),
        r.1 == Action::Perform(resolved(stages@[0].request, empty_context())),
{
    let mut pending = stages;
    let first = pending.remove(0);
    let ctx = new_context();
    let on_failure = first.on_failure;
    let op = first.request.resolve(&ctx);
    let expect = op.expected();
    (Handler { pending, finale, ctx, phase: Phase::Waiting { expect, on_failure } }, Action::Perform(op))
}

impl Handler {
    /// The next action, given how the work under way ended.
    ///
    /// A failure is answered as its stage says: with the stage's status and
    /// the error's text, possibly after ending the session's authentication.
    /// A success is recorded, and the next stage's work is asked for; after
    /// the last stage, the final answer is sent. A reply always ends the
    /// request, and every piece of work asked for is awaited with the kind of
    /// success it has. No work is asked for on behalf of a request whose token
    /// has not been authenticated.
    pub fn step(self, e: Event) -> (r: (Handler, Action))
        requires
            self.admits(&e),
        ensures
            r.1 is Reply <==> r.0@.phase is Finished,
            r.0.budget() < self.budget(),
            r.1 matches Action::Perform(op) ==> r.0.awaits() == Some(op.kind()),
            gated(self) ==> gated(r.0) && (r.1 is Perform ==> r.0@.ctx.user is Some),
            match (self@.phase, e) {
                (Phase::Waiting { on_failure, .. }, Event::Failed(m)) => match on_failure {
                    OnFailure::Answer(c) => r.1 == Action::Reply(Reply { status: c, body: Body::Text(m) }),
                    OnFailure::InvalidateThenAnswer(c) => {
                        &&& r.0@.phase == Phase::CleaningUp { status: c, message: m }
                        &&& r.1 == Action::Perform(Operation::Invalidate)
                    },
                    OnFailure::GiveUp => false,
                },
                (Phase::Waiting { .. }, _) => {
                    let ctx = record(self@.ctx, e);
                    if self@.pending.len() > 0 {
                        let next = self@.pending[0];
                        &&& r.0@.pending == self@.pending.drop_first()
                        &&& r.0@.finale == self@.finale
                        &&& r.0@.ctx == ctx
                        &&& r.0@.phase == Phase::Waiting {
                            expect: resolved(next.request, ctx).kind(),
                            on_failure: next.on_failure,
                        }
                        &&& r.1 == Action::Perform(resolved(next.request, ctx))
                    } else {
                        r.1 == Action::Reply(
                            Reply { status: self@.finale.status, body: final_body(self@.finale.source, ctx) },
                        )
                    }
                },
                (Phase::CleaningUp { status, message }, _) => r.1 == Action::Reply(
                    Reply { status, body: Body::Text(message) },
                ),
                (Phase::Finished, _) => false,
            },
    {
        let Handler { pending, finale, ctx, phase } = self;
        match phase {
            Phase::Waiting { expect, on_failure } => match e {
                Event::Failed(m) => match on_failure {
                    OnFailure::InvalidateThenAnswer(c) => (
                        Handler {
                            pending,
                            finale,
                            ctx,
                            phase: Phase::CleaningUp { status: c, message: m },
                        },
                        Action::Perform(Operation::Invalidate),
                    ),
                    OnFailure::Answer(c) => (
                        Handler { pending, finale, ctx: new_context(), phase: Phase::Finished },
                        Action::Reply(Reply { status: c, body: Body::Text(m) }),
                    ),
                    OnFailure::GiveUp => vstd::pervasive::unreached(),
                },
                _ => {
                    let ctx = record_event(ctx, e);
                    let mut pending = pending;
                    if pending.len() > 0 {
                        let next = pending.remove(0);
                        let on_failure = next.on_failure;
                        let op = next.request.resolve(&ctx);
                        let expect = op.expected();
                        (
                            Handler { pending, finale, ctx, phase: Phase::Waiting { expect, on_failure } },
                            Action::Perform(op),
                        )
                    } else {
                        let body = make_body(&finale.source, ctx);
                        let status: u16 = finale.status;
                        (
                            Handler { pending, finale, ctx: new_context(), phase: Phase::Finished },
                            Action::Reply(Reply { status, body }),
                        )
                    }
                },
            },
            Phase::CleaningUp { status, message } => (
                Handler { pending, finale, ctx: new_context(), phase: Phase::Finished },
                Action::Reply(Reply { status, body: Body::Text(message) }),
            ),
            Phase::Finished => vstd::pervasive::unreached(),
        }
    }
}

/// A stage whose work is given in full.
pub open spec fn work(op: Operation, on_failure: OnFailure) -> Stage {
    Stage { request: Request::Fixed(op), on_failure }
}

/// A stage whose work is given in full.
pub fn work_stage(op: Operation, on_failure: OnFailure) -> (s: Stage)
    ensures
        s == work(op, on_failure),
{
    Stage { request: Request::Fixed(op), on_failure }
}

/// `h` is the handler of a request that carries a bearer token, before
/// anything is known: it waits for the token's authentication, and a refused
/// token is answered with status 401 and the error's text.
pub open spec fn authenticating(h: Handler) -> bool {
    &&& h@.ctx == empty_context()
    &&& h@.phase == (Phase::Waiting {
        expect: Expect::User,
        on_failure: OnFailure::Answer(crate::status::UNAUTHORIZED),
    })
}

/// Starting the handler of a request that carries a bearer token: the token is
/// authenticated first.
pub fn start_authenticated(token: String, rest: Vec<Stage>, finale: Finale) -> (r: (Handler, Action))
    ensures
        authenticating(r.0),
        r.0@.pending == rest@,
        r.0@.finale == finale,
        gated(r.0),
        r.1 == Action::Perform(Operation::Authenticate { token }),
{
    (
        Handler {
            pending: rest,
            finale,
            ctx: new_context(),
            phase: Phase::Waiting {
                expect: Expect::User,
                on_failure: OnFailure::Answer(crate::status::UNAUTHORIZED),
            },
        },
        Action::Perform(Operation::Authenticate { token }),
    )
}

/// A request that has been answered is over: its handler admits no further
/// event.
pub proof fn law_answered_is_over(h: Handler, e: Event)
    requires
        h@.phase is Finished,
    ensures
        !h.admits(&e),
{
}

/// A handler that waits for its token's authentication asks for no work on
/// behalf of the request before the token is authenticated; with the
/// guarantee of [`Handler::step`], this holds for every handler that a request
/// carrying a token starts with.
pub proof fn law_authenticating_is_gated(h: Handler)
    requires
        authenticating(h),
    ensures
        gated(h),
{
}

/// The failure of work whose stage answers failures can always be reported.
pub proof fn law_failure_is_admitted(h: Handler, m: String)
    requires
        h@.phase matches Phase::Waiting { on_failure, .. } && !(on_failure is GiveUp),
    ensures
        h.admits(&Event::Failed(m)),
{
}

/// A success reports the kind of work it answers by its variant alone,
/// whatever it carries: an empty list is as much a success as a long one, and
/// a failure is never a success.
pub proof fn law_success_kind_by_variant(
    x: Expect,
    u: RecordId,
    t: String,
    albums: Vec<Album>,
    photos: Vec<Photo>,
    d: DirectoryWrapper,
    dirs: Vec<DirectoryWrapper>,
    files: Vec<FileWrapper>,
    m: String,
)
    ensures
        Event::Done.succeeds_as(x) <==> x == Expect::Done,
        Event::Authenticated(u).succeeds_as(x) <==> x == Expect::User,
        Event::Token(t).succeeds_as(x) <==> x == Expect::Token,
        Event::Id(t).succeeds_as(x) <==> x == Expect::Id,
        Event::Albums(albums).succeeds_as(x) <==> x == Expect::Albums,
        Event::Photos(photos).succeeds_as(x) <==> x == Expect::Photos,
        Event::Directory(d).succeeds_as(x) <==> x == Expect::Directory,
        Event::Directories(dirs).succeeds_as(x) <==> x == Expect::Directories,
        Event::Files(files).succeeds_as(x) <==> x == Expect::Files,
        !Event::Failed(m).succeeds_as(x),
{
}

/// What each piece of work succeeds with: authentication with the user,
/// signing up or in with a token, lookups with an id, reads with what they
/// read; every creation, update, move, deletion, query and the end of the
/// session succeed with nothing to report.
pub proof fn law_operation_kinds(
    token: String,
    credentials: User,
    album: Album,
    directory: Directory,
    file: File,
    path: String,
    id: RecordId,
    opt_id: Option<RecordId>,
    other: Option<RecordId>,
    label: String,
    key: RecordKey,
)
    ensures
        (Operation::Authenticate { token }).kind() == Expect::User,
        (Operation::SignUp { credentials }).kind() == Expect::Token,
        (Operation::SignIn { credentials }).kind() == Expect::Token,
        (Operation::AlbumId { path }).kind() == Expect::Id,
        (Operation::DirectoryId { directory }).kind() == Expect::Id,
        (Operation::FileId { file }).kind() == Expect::Id,
        Operation::SelectAlbums.kind() == Expect::Albums,
        Operation::SelectPhotos.kind() == Expect::Photos,
        (Operation::SelectDirectory { key }).kind() == Expect::Directory,
        Operation::TakeDirectories.kind() == Expect::Directories,
        Operation::TakeFiles.kind() == Expect::Files,
        (Operation::CreateAlbum { album }).kind() == Expect::Done,
        (Operation::CreateDirectory { directory }).kind() == Expect::Done,
        (Operation::CreateFile { file }).kind() == Expect::Done,
        (Operation::RenameAlbum { id: opt_id, label }).kind() == Expect::Done,
        (Operation::UpdateEmail { user: id, email: label }).kind() == Expect::Done,
        (Operation::UpdatePassword { user: id, password: label }).kind() == Expect::Done,
        (Operation::Relocate { id, new_parent: opt_id, new_album: other }).kind() == Expect::Done,
        (Operation::QueryChildren { parent: id }).kind() == Expect::Done,
        (Operation::DeleteAlbum { id }).kind() == Expect::Done,
        (Operation::DeleteDirectoryTree { id }).kind() == Expect::Done,
        (Operation::DeleteFile { id }).kind() == Expect::Done,
        Operation::Invalidate.kind() == Expect::Done,
{
}

/// What a success adds to what a handler knows: exactly what it carries, in
/// full, and nothing else changes.
pub proof fn law_record_keeps_what_was_reported(
    ctx: Context,
    u: RecordId,
    t: String,
    albums: Vec<Album>,
    photos: Vec<Photo>,
    d: DirectoryWrapper,
    dirs: Vec<DirectoryWrapper>,
    files: Vec<FileWrapper>,
)
    ensures
        record(ctx, Event::Done) == ctx,
        record(ctx, Event::Authenticated(u)) == (Context { user: Some(u), ..ctx }),
        record(ctx, Event::Token(t)) == (Context { token: Some(t), ..ctx }),
        record(ctx, Event::Id(t)) == (Context { found: Some(Body::Text(t)), ..ctx }),
        record(ctx, Event::Albums(albums)) == (Context { found: Some(Body::Albums(albums)), ..ctx }),
        record(ctx, Event::Photos(photos)) == (Context { found: Some(Body::Photos(photos)), ..ctx }),
        record(ctx, Event::Directory(d)) == (Context { found: Some(Body::Directory(d)), ..ctx }),
        record(ctx, Event::Directories(dirs)) == (Context { directories: Some(dirs), ..ctx }),
        record(ctx, Event::Files(files)) == (Context { files: Some(files), ..ctx }),
{
}

/// The final answer can be made as soon as what it is made from is known,
/// whatever that holds (an empty list included): a fixed text always, what
/// was found once anything was found, a listing once both subdirectories and
/// files were taken, a token once one was given.
pub proof fn law_answer_needs_only_its_source(ctx: Context, s: String)
    ensures
        answerable(Source::Text(s), ctx),
        answerable(Source::Found, ctx) <==> ctx.found is Some,
        answerable(Source::Listing, ctx) <==> ctx.directories is Some && ctx.files is Some,
        answerable(Source::Token, ctx) <==> ctx.token is Some,
        answerable(Source::TokenJson, ctx) <==> ctx.token is Some,
        ctx.found matches Some(b) ==> final_body(Source::Found, ctx) == b,
        final_body(Source::Text(s), ctx) == Body::Text(s),
        (ctx.directories is Some && ctx.files is Some) ==> final_body(Source::Listing, ctx) == Body::Listing(
            DirectoryReturn { directories: ctx.directories.unwrap(), files: ctx.files.unwrap() },
        ),
        ctx.token matches Some(t) ==> final_body(Source::Token, ctx) == Body::Text(t),
        ctx.token matches Some(t) ==> final_body(Source::TokenJson, ctx) == Body::TokenJson(t),
{
}

/// Work given in full can always be asked for; an album deletion needs the
/// album's id; work on behalf of the user needs the authenticated user, and
/// then creates the album owned by that user, or changes that user's
/// credentials.
pub proof fn law_requests_resolve(
    ctx: Context,
    op: Operation,
    label: String,
    path: String,
    id: Option<RecordId>,
    email: String,
)
    ensures
        resolvable(Request::Fixed(op), ctx),
        resolved(Request::Fixed(op), ctx) == op,
        resolvable(Request::DeleteAlbum { id }, ctx) <==> id is Some,
        id matches Some(x) ==> resolved(Request::DeleteAlbum { id }, ctx) == (Operation::DeleteAlbum { id: x }),
        resolvable(Request::CreateOwnedAlbum { label, path }, ctx) <==> ctx.user is Some,
        resolvable(Request::ChangeEmail { email }, ctx) <==> ctx.user is Some,
        resolvable(Request::ChangePassword { password: email }, ctx) <==> ctx.user is Some,
        ctx.user matches Some(u) ==> resolved(Request::CreateOwnedAlbum { label, path }, ctx) == (
        Operation::CreateAlbum { album: Album { label, path, owner: Some(u), id: None } }),
        ctx.user matches Some(u) ==> resolved(Request::ChangeEmail { email }, ctx) == (
        Operation::UpdateEmail { user: u, email }),
        ctx.user matches Some(u) ==> resolved(Request::ChangePassword { password: email }, ctx) == (
        Operation::UpdatePassword { user: u, password: email }),
{
}

/// A handler that waits for a success of some kind admits every success of
/// that kind, whatever it carries, when the next stage's work is given in full
/// or when the last answer needs nothing more than it will then know.
pub proof fn law_awaited_success_is_admitted(h: Handler, e: Event)
    requires
        h@.phase matches Phase::Waiting { expect, .. } && e.succeeds_as(expect),
        if h@.pending.len() > 0 {
            h@.pending[0].request is Fixed
        } else {
            answerable(h@.finale.source, record(h@.ctx, e))
        },
    ensures
        h.admits(&e),
{
}

/// A handler whose work is over but the end of its session admits that end,
/// and then answers with what was found, whatever it is (an empty list of
/// albums or photos included), when its answer is made from what was found.
pub proof fn law_found_answer_is_admitted(h: Handler, on_failure: OnFailure)
    requires
        h@.phase == (Phase::Waiting { expect: Expect::Done, on_failure }),
        h@.pending.len() == 0,
        h@.finale.source == Source::Found,
        h@.ctx.found is Some,
    ensures
        h.admits(&Event::Done),
        final_body(h@.finale.source, record(h@.ctx, Event::Done)) == h@.ctx.found.unwrap(),
{
}

/// A handler that waits for the subdirectories or the files of a query, or
/// for albums, admits any list of them, an empty one included, when the next
/// stage's work is given in full, or, for the files, when the listing is
/// answered next and the subdirectories are known.
pub proof fn law_listing_parts_are_admitted(
    h: Handler,
    dirs: Vec<DirectoryWrapper>,
    files: Vec<FileWrapper>,
    albums: Vec<Album>,
)
    ensures
        (h@.phase matches Phase::Waiting { expect: Expect::Directories, .. } && h@.pending.len() > 0
            && h@.pending[0].request is Fixed) ==> h.admits(&Event::Directories(dirs)),
        (h@.phase matches Phase::Waiting { expect: Expect::Files, .. } && h@.pending.len() == 0
            && h@.finale.source == Source::Listing && h@.ctx.directories is Some) ==> h.admits(
            &Event::Files(files),
        ),
        (h@.phase matches Phase::Waiting { expect: Expect::Albums, .. } && h@.pending.len() > 0
            && h@.pending[0].request is Fixed) ==> h.admits(&Event::Albums(albums)),
{
}

/// A handler that ends the session before answering a failure admits the
/// success of that end.
pub proof fn law_cleanup_end_is_admitted(h: Handler)
    requires
        h@.phase is CleaningUp,
    ensures
        h.admits(&Event::Done),
{
}

/// A request that carries a token is opened only by its authentication:
/// until then the only events admitted are the user's authentication or a
/// failure, and a failure is answered with status 401 and the error's text.
pub proof fn law_only_authentication_opens_a_request(h: Handler, e: Event)
    requires
        authenticating(h),
        h.admits(&e),
    ensures
        e is Authenticated || e is Failed,
        h@.phase == (Phase::Waiting {
            expect: Expect::User,
            on_failure: OnFailure::Answer(crate::status::UNAUTHORIZED),
        }),
{
}

} // verus!
