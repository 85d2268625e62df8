//! Deleting a directory with everything below it, depth first: the
//! subdirectories of a directory are deleted, in the order the database lists
//! them, before the directory itself.

use vstd::prelude::*;
use crate::models::thing::RecordId;

verus! {

/// What deleting a directory tree asks its driver to do next.
#[derive(Debug, PartialEq, Eq)]
pub enum DeleteStep {
    /// List the subdirectories of this directory.
    ListSubdirectories(RecordId),
    /// Delete this directory record.
    Delete(RecordId),
    /// The deletion is over: the value the service reports on success, or the
    /// text of the error that stopped it.
    Finish(Result<i8, String>),
}

/// What the driver reports back after doing the step that was asked for.
#[derive(Debug, PartialEq, Eq)]
pub enum DeleteEvent {
    /// The subdirectories that the database listed.
    Subdirectories(Vec<RecordId>),
    /// The directory was deleted.
    Deleted,
    /// The step failed, with the error's text.
    Failed(String),
}

/// A directory whose deletion is under way.
pub struct Frame {
    id: RecordId,
    listed: bool,
    remaining: Vec<RecordId>,
    subdirs: Ghost<Seq<RecordId>>,
    entry: Ghost<nat>,
}

/// What a [`Frame`] stands for.
pub struct FrameState {
    /// The directory.
    pub id: RecordId,
    /// Whether its subdirectories have been listed.
    pub listed: bool,
    /// The listed subdirectories whose deletion has not started yet.
    pub remaining: Seq<RecordId>,
    /// All the subdirectories the database listed for it.
    pub subdirs: Seq<RecordId>,
    /// Where its listing stands in the history of listings.
    pub entry: nat,
}

impl View for Frame {
    type V = FrameState;

    closed spec fn view(&self) -> FrameState {
        FrameState {
            id: self.id,
            listed: self.listed,
            remaining: self.remaining@,
            subdirs: self.subdirs@,
            entry: self.entry@,
        }
    }
}

/// Where deleting a directory tree stands.
pub struct DeleteState {
    /// The directories under way, the outermost first; empty once the
    /// outermost is deleted.
    pub frames: Seq<FrameState>,
    /// The directories whose deletion the database confirmed, in order.
    pub deleted: Seq<RecordId>,
    /// Every listing the database gave: the directory and its subdirectories,
    /// in order.
    pub listings: Seq<(RecordId, Seq<RecordId>)>,
    /// Whether a step failed, which ends the deletion.
    pub failed: bool,
}

/// Deleting a directory tree, under way.
pub struct DeleteRecursive {
    stack: Vec<Frame>,
    deleted: Ghost<Seq<RecordId>>,
    listings: Ghost<Seq<(RecordId, Seq<RecordId>)>>,
    failed: bool,
}

/// The states of the frames of a stack.
pub open spec fn frames_of(stack: Seq<Frame>) -> Seq<FrameState> {
    stack.map_values(|f: Frame| f@)
}

impl View for DeleteRecursive {
    type V = DeleteState;

    closed spec fn view(&self) -> DeleteState {
        DeleteState {
            frames: frames_of(self.stack@),
            deleted: self.deleted@,
            listings: self.listings@,
            failed: self.failed,
        }
    }
}

/// A directory that has just come up: nothing is known of it yet.
pub open spec fn fresh(id: RecordId) -> FrameState {
    FrameState { id, listed: false, remaining: Seq::empty(), subdirs: Seq::empty(), entry: 0 }
}

/// The subdirectories of `f` whose deletion has started.
pub open spec fn started(f: FrameState) -> int {
    f.subdirs.len() - f.remaining.len()
}

/// A directory that waits for one of its subdirectories, `child`: its listed
/// subdirectories are those already started followed by the remaining ones,
/// the last one started is `child`, and those before it are deleted.
pub open spec fn waits_for(f: FrameState, child: RecordId, deleted: Seq<RecordId>) -> bool {
    &&& f.listed
    &&& f.remaining.len() < f.subdirs.len()
    &&& f.remaining == f.subdirs.skip(started(f))
    &&& f.subdirs[started(f) - 1] == child
    &&& forall|k: int| 0 <= k < started(f) - 1 ==> deleted.contains(#[trigger] f.subdirs[k])
}

/// The directory being worked on: either its subdirectories are being listed,
/// or all of them are deleted and it is being deleted itself.
pub open spec fn in_progress(f: FrameState, deleted: Seq<RecordId>) -> bool {
    &&& f.remaining.len() == 0
    &&& !f.listed ==> f.subdirs.len() == 0
    &&& f.listed ==> forall|k: int| 0 <= k < f.subdirs.len() ==> deleted.contains(#[trigger] f.subdirs[k])
}

/// A listing whose directory and every listed subdirectory are deleted.
pub open spec fn complete(listing: (RecordId, Seq<RecordId>), deleted: Seq<RecordId>) -> bool {
    &&& deleted.contains(listing.0)
    &&& forall|j: int| 0 <= j < listing.1.len() ==> deleted.contains(#[trigger] listing.1[j])
}

/// Some directory under way holds listing `k`.
pub open spec fn holds(frames: Seq<FrameState>, k: nat) -> bool {
    exists|i: int| 0 <= i < frames.len() && #[trigger] frames[i].listed && frames[i].entry == k
}

/// The directories below the top wait for the one after them, each listed
/// directory holds its own listing, and every listing is either held by a
/// directory under way or complete.
pub open spec fn settled(s: DeleteState) -> bool {
    &&& forall|i: int|
        0 <= i < s.frames.len() - 1 ==> waits_for(#[trigger] s.frames[i], s.frames[i + 1].id, s.deleted)
    &&& forall|i: int|
        0 <= i < s.frames.len() && #[trigger] s.frames[i].listed ==> {
            &&& s.frames[i].entry < s.listings.len()
            &&& s.listings[s.frames[i].entry as int] == (s.frames[i].id, s.frames[i].subdirs)
        }
    &&& forall|k: nat| k < s.listings.len() ==> complete(#[trigger] s.listings[k as int], s.deleted) || holds(s.frames, k)
}

/// The well-formed states: settled, with the top directory in progress.
pub open spec fn wf(s: DeleteState) -> bool {
    &&& settled(s)
    &&& s.frames.len() > 0 ==> in_progress(s.frames.last(), s.deleted)
}

/// What a sequence holds it still holds with one more element at the end.
proof fn lemma_contains_after_push(s: Seq<RecordId>, x: RecordId, y: RecordId)
    requires
        s.contains(x),
    ensures
        s.push(y).contains(x),
{
    let i = choose|i: int| 0 <= i < s.len() && s[i] == x;
    assert(s.push(y)[i] == x);
}

/// A complete listing stays complete when one more deletion is confirmed.
proof fn lemma_complete_after_push(l: (RecordId, Seq<RecordId>), deleted: Seq<RecordId>, y: RecordId)
    requires
        complete(l, deleted),
    ensures
        complete(l, deleted.push(y)),
{
    lemma_contains_after_push(deleted, l.0, y);
    assert forall|j: int| 0 <= j < l.1.len() implies deleted.push(y).contains(#[trigger] l.1[j]) by {
        lemma_contains_after_push(deleted, l.1[j], y);
    }
}

/// A listing held by a frame of `f1` is held in `f2`, when the frames of `f1`
/// keep their place, whether they are listed, and their entry.
proof fn lemma_holds_kept(f1: Seq<FrameState>, f2: Seq<FrameState>, k: nat)
    requires
        holds(f1, k),
        f1.len() <= f2.len(),
        forall|i: int| 0 <= i < f1.len() ==> #[trigger] f2[i].listed == f1[i].listed && f2[i].entry == f1[i].entry,
    ensures
        holds(f2, k),
{
    let i = choose|i: int| 0 <= i < f1.len() && #[trigger] f1[i].listed && f1[i].entry == k;
    assert(f2[i].listed);
}

impl DeleteRecursive {
    #[verifier::type_invariant]
    spec fn inv(self) -> bool {
        wf(self@)
    }

    /// The events that can answer the step last asked for.
    pub open spec fn admits(&self, e: &DeleteEvent) -> bool {
        &&& self@.frames.len() > 0
        &&& !self@.failed
        &&& match e {
            DeleteEvent::Failed(_) => true,
            DeleteEvent::Subdirectories(_) => !self@.frames.last().listed,
            DeleteEvent::Deleted => self@.frames.last().listed,
        }
    }

    /// Whether `e` is admitted (see [`DeleteRecursive::admits`]).
    pub fn accepts(&self, e: &DeleteEvent) -> (b: bool)
        ensures
            b == self.admits(e),
    {
        let n: usize = self.stack.len();
        if n == 0 || self.failed {
            return false;
        }
        proof {
            assert(self@.frames.last() == self.stack@[n - 1]@);
        }
        match e {
            DeleteEvent::Failed(_) => true,
            DeleteEvent::Subdirectories(_) => !self.stack[n - 1].listed,
            DeleteEvent::Deleted => self.stack[n - 1].listed,
        }
    }
}

/// Deleting the directory `id` and everything below it: its subdirectories
/// are listed first.
pub fn delete_recursive(id: RecordId) -> (r: (DeleteRecursive, DeleteStep))
    ensures
        r.0@.frames == seq![fresh(id)],
        r.0@.deleted == Seq::<RecordId>::empty(),
        r.0@.listings == Seq::<(RecordId, Seq<RecordId>)>::empty(),
        !r.0@.failed,
        r.1 == DeleteStep::ListSubdirectories(id),
{
    let first = id.duplicate();
    let frame = Frame {
        id,
        listed: false,
        remaining: Vec::new(),
        subdirs: Ghost(Seq::empty()),
        entry: Ghost(0),
    };
    let mut stack = Vec::new();
    stack.push(frame);
    proof {
        assert(frames_of(stack@) =~= seq![frame@]);
        assert(frame@ =~= fresh(id));
    }
    (
        DeleteRecursive { stack, deleted: Ghost(Seq::empty()), listings: Ghost(Seq::empty()), failed: false },
        DeleteStep::ListSubdirectories(first),
    )
}

/// The state of a stack with its confirmed deletions and listings.
pub open spec fn state_of(
    stack: Seq<Frame>,
    deleted: Seq<RecordId>,
    listings: Seq<(RecordId, Seq<RecordId>)>,
) -> DeleteState {
    DeleteState { frames: frames_of(stack), deleted, listings, failed: false }
}

/// The next step once the directory on top has been listed, or one of its
/// subdirectories is deleted: start on its next subdirectory, or delete it
/// when none is left.
#[verifier::rlimit(40)]
fn advance(
    stack: Vec<Frame>,
    Ghost(deleted): Ghost<Seq<RecordId>>,
    Ghost(listings): Ghost<Seq<(RecordId, Seq<RecordId>)>>,
) -> (r: (Vec<Frame>, DeleteStep))
    requires
        settled(state_of(stack@, deleted, listings)),
        stack@.len() > 0,
        stack@.last()@.listed,
        stack@.last()@.remaining.len() <= stack@.last()@.subdirs.len(),
        stack@.last()@.remaining == stack@.last()@.subdirs.skip(started(stack@.last()@)),
        forall|k: int|
            0 <= k < started(stack@.last()@) ==> deleted.contains(#[trigger] stack@.last()@.subdirs[k]),
    ensures
        wf(state_of(r.0@, deleted, listings)),
        ({
            let t = stack@.last()@;
            if t.remaining.len() == 0 {
                &&& frames_of(r.0@) == frames_of(stack@)
                &&& r.1 == DeleteStep::Delete(t.id)
            } else {
                &&& frames_of(r.0@) == frames_of(stack@).drop_last().push(
                    FrameState { remaining: t.remaining.drop_first(), ..t },
                ).push(fresh(t.remaining[0]))
                &&& r.1 == DeleteStep::ListSubdirectories(t.remaining[0])
            }
        }),
{
    let ghost old_stack = stack@;
    let ghost old_frames = frames_of(stack@);
    let ghost n = stack@.len() as int;
    let mut stack = stack;
    let mut top = stack.pop().unwrap();
    let ghost t = top@;
    proof {
        assert(stack@ == old_stack.drop_last());
        assert(old_frames.last() == t);
    }
    if top.remaining.len() == 0 {
        let id = top.id.duplicate();
        stack.push(top);
        proof {
            assert(stack@ =~= old_stack);
            assert(t.subdirs.skip(started(t)).len() == 0);
            let s = state_of(stack@, deleted, listings);
            assert(s.frames == old_frames);
            assert(in_progress(s.frames.last(), deleted));
        }
        (stack, DeleteStep::Delete(id))
    } else {
        let child = top.remaining.remove(0);
        let listed_id = child.duplicate();
        let frame = Frame {
            id: child,
            listed: false,
            remaining: Vec::new(),
            subdirs: Ghost(Seq::empty()),
            entry: Ghost(0),
        };
        let ghost t2 = top@;
        proof {
            let p = started(t);
            assert(t.remaining[0] == t.subdirs.skip(p)[0]);
            assert(t.subdirs[p] == t.remaining[0]);
            assert(t2.remaining == t.remaining.drop_first());
            assert(t2.remaining =~= t2.subdirs.skip(p + 1));
            assert(started(t2) == p + 1);
            assert(t2 =~= FrameState { remaining: t.remaining.drop_first(), ..t });
            assert(frame@ =~= fresh(t.remaining[0]));
        }
        stack.push(top);
        stack.push(frame);
        proof {
            let f = frames_of(stack@);
            assert(f =~= old_frames.drop_last().push(t2).push(fresh(t.remaining[0])));
            let s = state_of(stack@, deleted, listings);
            assert forall|i: int| 0 <= i < f.len() - 1 implies waits_for(
                #[trigger] f[i],
                f[i + 1].id,
                deleted,
            ) by {
                if i < f.len() - 2 {
                    assert(f[i] == old_frames[i]);
                    assert(f[i + 1].id == old_frames[i + 1].id);
                }
            }
            assert forall|i: int| 0 <= i < f.len() && #[trigger] f[i].listed implies {
                &&& f[i].entry < listings.len()
                &&& listings[f[i].entry as int] == (f[i].id, f[i].subdirs)
            } by {
                assert(f[i] == old_frames[i] || i == n - 1);
            }
            assert forall|k: nat| k < listings.len() implies complete(
                #[trigger] listings[k as int],
                deleted,
            ) || holds(f, k) by {
                if !complete(listings[k as int], deleted) {
                    lemma_holds_kept(old_frames, f, k);
                }
            }
            assert(in_progress(f.last(), deleted));
        }
        (stack, DeleteStep::ListSubdirectories(listed_id))
    }
}

impl DeleteRecursive {
    /// The next step, given how the last one ended.
    ///
    /// A failure ends the deletion with the failure's text. Once the
    /// subdirectories of a directory are listed, they are taken in the order
    /// listed, each after the one before it is deleted; the directory itself is
    /// deleted after the last of them. When the outermost directory is
    /// deleted, the deletion ends with the value 69. The directories under way
    /// below the one worked on keep what was listed for them.
    ///
    /// Whenever a directory is to be deleted, every subdirectory the database
    /// listed for it has already been deleted; and when the deletion ends with
    /// 69, every directory whose subdirectories were listed, and every
    /// subdirectory listed, has been deleted.
    #[verifier::rlimit(60)]
    pub fn step(self, e: DeleteEvent) -> (r: (DeleteRecursive, DeleteStep))
        requires
            self.admits(&e),
        ensures
            wf(r.0@),
            r.1 matches DeleteStep::Delete(d) ==> {
                &&& r.0@.frames.len() > 0
                &&& r.0@.frames.last().id == d
                &&& forall|k: int|
                    0 <= k < r.0@.frames.last().subdirs.len() ==> r.0@.deleted.contains(
                        #[trigger] r.0@.frames.last().subdirs[k],
                    )
            },
            r.1 == DeleteStep::Finish(Ok(69)) ==> forall|k: int|
                0 <= k < r.0@.listings.len() ==> complete(#[trigger] r.0@.listings[k], r.0@.deleted),
            ({
                let s = self@;
                let t = s.frames.last();
                let n = s.frames.len();
                match e {
                    DeleteEvent::Failed(m) => {
                        &&& r.0@ == DeleteState { failed: true, ..s }
                        &&& r.1 == DeleteStep::Finish(Err(m))
                    },
                    DeleteEvent::Subdirectories(v) => {
                        let t2 = FrameState { listed: true, remaining: v@, subdirs: v@, entry: s.listings.len(), ..t };
                        &&& r.0@.deleted == s.deleted
                        &&& r.0@.listings == s.listings.push((t.id, v@))
                        &&& !r.0@.failed
                        &&& if v@.len() == 0 {
                            &&& r.0@.frames == s.frames.drop_last().push(t2)
                            &&& r.1 == DeleteStep::Delete(t.id)
                        } else {
                            &&& r.0@.frames == s.frames.drop_last().push(
                                FrameState { remaining: v@.drop_first(), ..t2 },
                            ).push(fresh(v@[0]))
                            &&& r.1 == DeleteStep::ListSubdirectories(v@[0])
                        }
                    },
                    DeleteEvent::Deleted => {
                        &&& r.0@.deleted == s.deleted.push(t.id)
                        &&& r.0@.listings == s.listings
                        &&& !r.0@.failed
                        &&& if n == 1 {
                            &&& r.0@.frames.len() == 0
                            &&& r.1 == DeleteStep::Finish(Ok(69))
                        } else {
                            let p = s.frames[n - 2];
                            if p.remaining.len() == 0 {
                                &&& r.0@.frames == s.frames.drop_last()
                                &&& r.1 == DeleteStep::Delete(p.id)
                            } else {
                                &&& r.0@.frames == s.frames.drop_last().drop_last().push(
                                    FrameState { remaining: p.remaining.drop_first(), ..p },
                                ).push(fresh(p.remaining[0]))
                                &&& r.1 == DeleteStep::ListSubdirectories(p.remaining[0])
                            }
                        }
                    },
                }
            }),
    {
        proof {
            use_type_invariant(&self);
        }
        let ghost s = self@;
        let DeleteRecursive { stack, deleted, listings, failed } = self;
        let ghost old_stack = stack@;
        match e {
            DeleteEvent::Failed(m) => {
                let r = DeleteRecursive { stack, deleted, listings, failed: true };
                proof {
                    assert(r@ =~= DeleteState { failed: true, ..s });
                }
                (r, DeleteStep::Finish(Err(m)))
            },
            DeleteEvent::Subdirectories(v) => {
                let (stack, step, Ghost(new_listings)) = on_listed(stack, deleted, listings, v);
                (DeleteRecursive { stack, deleted, listings: Ghost(new_listings), failed: false }, step)
            },
            DeleteEvent::Deleted => {
                let (stack, step, Ghost(new_deleted)) = on_deleted(stack, deleted, listings);
                (DeleteRecursive { stack, deleted: Ghost(new_deleted), listings, failed: false }, step)
            },
        }
    }
}

/// The next step once the subdirectories of the directory on top are listed.
#[verifier::rlimit(60)]
fn on_listed(
    stack: Vec<Frame>,
    deleted: Ghost<Seq<RecordId>>,
    listings: Ghost<Seq<(RecordId, Seq<RecordId>)>>,
    v: Vec<RecordId>,
) -> (r: (Vec<Frame>, DeleteStep, Ghost<Seq<(RecordId, Seq<RecordId>)>>))
    requires
        wf(state_of(stack@, deleted@, listings@)),
        stack@.len() > 0,
        !stack@.last()@.listed,
    ensures
        ({
            let s = state_of(stack@, deleted@, listings@);
            let t = s.frames.last();
            let t2 = FrameState { listed: true, remaining: v@, subdirs: v@, entry: s.listings.len(), ..t };
            &&& r.2@ == s.listings.push((t.id, v@))
            &&& wf(state_of(r.0@, deleted@, r.2@))
            &&& r.1 matches DeleteStep::Delete(d) ==> {
                &&& frames_of(r.0@).len() > 0
                &&& frames_of(r.0@).last().id == d
                &&& forall|k: int|
                    0 <= k < frames_of(r.0@).last().subdirs.len() ==> deleted@.contains(
                        #[trigger] frames_of(r.0@).last().subdirs[k],
                    )
            }
            &&& if v@.len() == 0 {
                &&& frames_of(r.0@) == s.frames.drop_last().push(t2)
                &&& r.1 == DeleteStep::Delete(t.id)
            } else {
                &&& frames_of(r.0@) == s.frames.drop_last().push(
                    FrameState { remaining: v@.drop_first(), ..t2 },
                ).push(fresh(v@[0]))
                &&& r.1 == DeleteStep::ListSubdirectories(v@[0])
            }
        }),
{
    let ghost s = state_of(stack@, deleted@, listings@);
    let ghost old_frames = s.frames;
    let ghost n = stack@.len() as int;
    let mut stack = stack;
    let mut top = stack.pop().unwrap();
    let ghost t = top@;
    let ghost listed = v@;
    let ghost entry = listings@.len();
    let ghost new_listings = listings@.push((top.id, v@));
    top.listed = true;
    top.remaining = v;
    top.subdirs = Ghost(listed);
    top.entry = Ghost(entry);
    let ghost t2 = top@;
    proof {
        assert(old_frames.last() == t);
        assert(t2 =~= FrameState { listed: true, remaining: listed, subdirs: listed, entry: entry, ..t });
        assert(started(t2) == 0);
        assert(t2.remaining =~= t2.subdirs.skip(0));
    }
    stack.push(top);
    proof {
        let f = frames_of(stack@);
        assert(f =~= old_frames.drop_last().push(t2));
        assert forall|i: int| 0 <= i < f.len() - 1 implies waits_for(#[trigger] f[i], f[i + 1].id, deleted@) by {
            assert(f[i] == old_frames[i]);
            assert(f[i + 1].id == old_frames[i + 1].id);
        }
        assert forall|i: int| 0 <= i < f.len() && #[trigger] f[i].listed implies {
            &&& f[i].entry < new_listings.len()
            &&& new_listings[f[i].entry as int] == (f[i].id, f[i].subdirs)
        } by {
            if i < n - 1 {
                assert(f[i] == old_frames[i]);
            }
        }
        assert forall|k: nat| k < new_listings.len() implies complete(
            #[trigger] new_listings[k as int],
            deleted@,
        ) || holds(f, k) by {
            if k == entry {
                assert(f[n - 1].listed && f[n - 1].entry == k);
            } else {
                assert(new_listings[k as int] == listings@[k as int]);
                if !complete(listings@[k as int], deleted@) {
                    let i = choose|i: int| 0 <= i < old_frames.len() && #[trigger] old_frames[i].listed && old_frames[i].entry == k;
                    assert(i != n - 1);
                    assert(f[i] == old_frames[i]);
                }
            }
        }
    }
    let (stack, step) = advance(stack, deleted, Ghost(new_listings));
    (stack, step, Ghost(new_listings))
}

/// The next step once the directory on top is deleted.
#[verifier::rlimit(60)]
fn on_deleted(
    stack: Vec<Frame>,
    deleted: Ghost<Seq<RecordId>>,
    listings: Ghost<Seq<(RecordId, Seq<RecordId>)>>,
) -> (r: (Vec<Frame>, DeleteStep, Ghost<Seq<RecordId>>))
    requires
        wf(state_of(stack@, deleted@, listings@)),
        stack@.len() > 0,
        stack@.last()@.listed,
    ensures
        ({
            let s = state_of(stack@, deleted@, listings@);
            let t = s.frames.last();
            let n = s.frames.len();
            &&& r.2@ == s.deleted.push(t.id)
            &&& wf(state_of(r.0@, r.2@, listings@))
            &&& r.1 matches DeleteStep::Delete(d) ==> {
                &&& frames_of(r.0@).len() > 0
                &&& frames_of(r.0@).last().id == d
                &&& forall|k: int|
                    0 <= k < frames_of(r.0@).last().subdirs.len() ==> r.2@.contains(
                        #[trigger] frames_of(r.0@).last().subdirs[k],
                    )
            }
            &&& if n == 1 {
                &&& frames_of(r.0@).len() == 0
                &&& r.1 == DeleteStep::Finish(Ok(69))
                &&& forall|k: int| 0 <= k < listings@.len() ==> complete(#[trigger] listings@[k], r.2@)
            } else {
                let p = s.frames[n - 2];
                if p.remaining.len() == 0 {
                    &&& frames_of(r.0@) == s.frames.drop_last()
                    &&& r.1 == DeleteStep::Delete(p.id)
                } else {
                    &&& frames_of(r.0@) == s.frames.drop_last().drop_last().push(
                        FrameState { remaining: p.remaining.drop_first(), ..p },
                    ).push(fresh(p.remaining[0]))
                    &&& r.1 == DeleteStep::ListSubdirectories(p.remaining[0])
                }
            }
        }),
{
    let ghost s = state_of(stack@, deleted@, listings@);
    let ghost old_frames = s.frames;
    let ghost old_deleted = deleted@;
    let ghost n = stack@.len() as int;
    let mut stack = stack;
    let top = stack.pop().unwrap();
    let ghost t = top@;
    let ghost done = top.id;
    let ghost new_deleted = deleted@.push(done);
    proof {
        assert(old_frames.last() == t);
        let f = frames_of(stack@);
        assert(f =~= old_frames.drop_last());
        // The listing of the deleted directory is now complete.
        assert(complete(listings@[t.entry as int], new_deleted)) by {
            assert(new_deleted[new_deleted.len() - 1] == done);
            assert forall|j: int| 0 <= j < t.subdirs.len() implies new_deleted.contains(#[trigger] t.subdirs[j]) by {
                lemma_contains_after_push(old_deleted, t.subdirs[j], done);
            }
        }
        assert forall|k: nat| k < listings@.len() implies complete(
            #[trigger] listings@[k as int],
            new_deleted,
        ) || holds(f, k) by {
            if complete(listings@[k as int], old_deleted) {
                lemma_complete_after_push(listings@[k as int], old_deleted, done);
            } else {
                let i = choose|i: int| 0 <= i < old_frames.len() && #[trigger] old_frames[i].listed && old_frames[i].entry == k;
                if i == n - 1 {
                    assert(k == t.entry);
                } else {
                    assert(f[i] == old_frames[i]);
                }
            }
        }
        assert forall|i: int| 0 <= i < f.len() - 1 implies waits_for(#[trigger] f[i], f[i + 1].id, new_deleted) by {
            assert(f[i] == old_frames[i]);
            assert(f[i + 1] == old_frames[i + 1]);
            let g = old_frames[i];
            assert forall|k: int| 0 <= k < started(g) - 1 implies new_deleted.contains(#[trigger] g.subdirs[k]) by {
                lemma_contains_after_push(old_deleted, g.subdirs[k], done);
            }
        }
        assert forall|i: int| 0 <= i < f.len() && #[trigger] f[i].listed implies {
            &&& f[i].entry < listings@.len()
            &&& listings@[f[i].entry as int] == (f[i].id, f[i].subdirs)
        } by {
            assert(f[i] == old_frames[i]);
        }
    }
    if stack.len() == 0 {
        proof {
            assert forall|k: int| 0 <= k < listings@.len() implies complete(#[trigger] listings@[k], new_deleted) by {
                assert(!holds(frames_of(stack@), k as nat));
            }
        }
        (stack, DeleteStep::Finish(Ok(69)), Ghost(new_deleted))
    } else {
        proof {
            let f = frames_of(stack@);
            let p = f.last();
            assert(p == old_frames[n - 2]);
            assert(waits_for(old_frames[n - 2], old_frames[n - 1].id, old_deleted));
            assert(stack@.last()@ == p);
            assert forall|k: int| 0 <= k < started(p) implies new_deleted.contains(#[trigger] p.subdirs[k]) by {
                if k < started(p) - 1 {
                    lemma_contains_after_push(old_deleted, p.subdirs[k], done);
                } else {
                    assert(p.subdirs[k] == done);
                    assert(new_deleted[new_deleted.len() - 1] == done);
                }
            }
        }
        let (stack, step) = advance(stack, Ghost(new_deleted), listings);
        (stack, step, Ghost(new_deleted))
    }
}

/// While a deletion is under way and nothing has failed, a listing of any
/// length (none, one, or many subdirectories) is admitted for the directory on
/// top when it has not been listed yet; its deletion is admitted once it has
/// been listed; and a failure is admitted at any time.
pub proof fn law_any_listing_is_admitted(m: DeleteRecursive, v: Vec<RecordId>, msg: String)
    ensures
        (m@.frames.len() > 0 && !m@.failed && !m@.frames.last().listed) ==> m.admits(
            &DeleteEvent::Subdirectories(v),
        ),
        (m@.frames.len() > 0 && !m@.failed && m@.frames.last().listed) ==> m.admits(&DeleteEvent::Deleted),
        (m@.frames.len() > 0 && !m@.failed) ==> m.admits(&DeleteEvent::Failed(msg)),
        m@.failed ==> !m.admits(&DeleteEvent::Subdirectories(v)) && !m.admits(&DeleteEvent::Deleted),
{
}

} // verus!
