//! The state word of a task.
//!
//! One machine word packs the lifecycle bits (`RUNNING`, `COMPLETE`), the
//! `NOTIFIED` bit, the two join-handle bits and, above them, the reference
//! count. [`Snapshot`] is one value of that word and [`SnapshotView`] is what
//! it means; [`State`] is the atomic cell that holds the current value.
//!
//! Every transition is a total function on snapshots. [`State`] applies such a
//! function atomically to whatever value the cell holds at that moment; since
//! other contexts may change the cell at any time, its contracts speak only of
//! the snapshot that the operation observed.

use std::sync::atomic::AtomicUsize;
use std::sync::atomic::Ordering;
use vstd::prelude::*;

verus! {

/// The task is currently being run.
pub const RUNNING: usize = 0b0001;

/// The task is complete. Once this bit is set, it is never unset.
pub const COMPLETE: usize = 0b0010;

/// The two lifecycle bits.
pub const LIFECYCLE_MASK: usize = 0b11;

/// The task has been woken: it is in a run queue, or will re-enter one when
/// its current poll ends.
pub const NOTIFIED: usize = 0b100;

/// The join handle is still around.
pub const JOIN_INTEREST: usize = 0b1000;

/// A join handle waker has been set.
pub const JOIN_WAKER: usize = 0b1_0000;

/// All flag bits.
pub const STATE_MASK: usize = 0b1_1111;

/// The bits that hold the reference count.
pub const REF_COUNT_MASK: usize = !STATE_MASK;

/// Number of positions the reference count is shifted by.
pub const REF_COUNT_SHIFT: usize = 5;

/// One reference.
pub const REF_ONE: usize = 0b10_0000;

/// The state a task starts in: two references (the runnable task and the
/// join handle), `JOIN_INTEREST` set, and `NOTIFIED` set because a freshly
/// spawned task is pushed to the run queue at once.
pub const INITIAL_STATE: usize = 0b100_1100;

/// Outcome of the transition from running to idle.
#[must_use]
#[derive(Clone, Copy, Debug, PartialEq, Eq, Structural)]
pub enum TransitionToIdle {
    /// Nobody woke the task during the poll.
    OkIdle,
    /// The task was woken while it ran; the caller must schedule it again.
    OkNotified,
}

/// Outcome of a wake.
#[must_use]
#[derive(Clone, Copy, Debug, PartialEq, Eq, Structural)]
pub enum TransitionToNotified {
    /// The task is running, already notified, or complete.
    DoNothing,
    /// The task was idle and not notified: the caller must push it to the run
    /// queue.
    Submit,
}

/// What is to be done with the output of a task when the task completes.
#[derive(Clone, Copy, Debug, PartialEq, Eq, Structural)]
pub enum OutputAction {
    /// The join handle is gone: nobody will read the output, so it is
    /// dropped.
    Discard,
    /// The join handle waits: the output is kept and the waker of the join
    /// handle is woken.
    Wake,
    /// The join handle is there and does not wait: the output is kept until
    /// the handle asks for it.
    Keep,
}

/// What the drop of a join handle leaves to be done.
#[derive(Clone, Copy, Debug, PartialEq, Eq, Structural)]
pub struct JoinDropped {
    /// The task has completed, and its output is dropped unread.
    pub drop_output: bool,
    /// The join handle held the last reference: the task is released.
    pub release: bool,
}

/// What a join handle that is polled has to do, given the state it finds.
#[derive(Clone, Copy, Debug, PartialEq, Eq, Structural)]
pub enum JoinWait {
    /// The task is complete: the output is there to be taken.
    Ready,
    /// The task runs on and an earlier poll has left a waker: that waker is
    /// cleared before a new one is stored.
    ClearWaker,
    /// The task runs on and no waker is set: a waker can be stored.
    StoreWaker,
}

/// The meaning of a state word.
pub struct SnapshotView {
    pub running: bool,
    pub complete: bool,
    pub notified: bool,
    pub join_interested: bool,
    pub join_waker: bool,
    pub ref_count: nat,
}

/// The largest reference count that the state word can hold.
pub open spec fn max_ref_count() -> nat {
    (usize::MAX as nat) / 32
}

impl SnapshotView {
    /// The state of a freshly spawned task.
    pub open spec fn initial() -> SnapshotView {
        SnapshotView {
            running: false,
            complete: false,
            notified: true,
            join_interested: true,
            join_waker: false,
            ref_count: 2,
        }
    }

    /// Neither running nor complete.
    pub open spec fn is_idle(self) -> bool {
        !self.running && !self.complete
    }

    /// Start of a poll: the task runs, and the notification that made it run
    /// is consumed.
    pub open spec fn to_running(self) -> SnapshotView {
        SnapshotView { running: true, notified: false, ..self }
    }

    /// End of a poll that did not finish the task.
    pub open spec fn to_idle(self) -> SnapshotView {
        SnapshotView { running: false, ..self }
    }

    /// Whether a wake arrived during the poll that now ends.
    pub open spec fn idle_outcome(self) -> TransitionToIdle {
        if self.notified {
            TransitionToIdle::OkNotified
        } else {
            TransitionToIdle::OkIdle
        }
    }

    /// End of the poll that finished the task: both lifecycle bits flip in one
    /// step.
    pub open spec fn to_complete(self) -> SnapshotView {
        SnapshotView { running: !self.running, complete: !self.complete, ..self }
    }

    /// What a wake asks of its caller.
    pub open spec fn notify_action(self) -> TransitionToNotified {
        if self.is_idle() && !self.notified {
            TransitionToNotified::Submit
        } else {
            TransitionToNotified::DoNothing
        }
    }

    /// The state after a wake: `NOTIFIED` is set unless the task is complete.
    pub open spec fn to_notified(self) -> SnapshotView {
        if self.running || !self.complete {
            SnapshotView { notified: true, ..self }
        } else {
            self
        }
    }

    /// Whether a wake can be recorded without pushing the task to a queue.
    pub open spec fn notifies_without_submit(self) -> bool {
        self.running || self.complete || self.notified
    }

    /// The state after a wake that never queues: `NOTIFIED` is set only while
    /// the task runs.
    pub open spec fn to_notified_without_submit(self) -> SnapshotView {
        if self.running {
            SnapshotView { notified: true, ..self }
        } else {
            self
        }
    }

    /// The state after the join handle of a task that has not run yet is
    /// dropped: one reference less and no join interest.
    pub open spec fn join_handle_dropped_fast(self) -> Option<SnapshotView> {
        if self == Self::initial() {
            Some(SnapshotView { join_interested: false, ref_count: 1, ..self })
        } else {
            None
        }
    }

    /// Clearing `JOIN_INTEREST`, which fails once the task is complete and
    /// where the bit is not set.
    pub open spec fn join_interest_unset(self) -> Option<SnapshotView> {
        if self.join_interested && !self.complete {
            Some(SnapshotView { join_interested: false, ..self })
        } else {
            None
        }
    }

    /// Setting `JOIN_WAKER`, which fails once the task is complete, without
    /// join interest, and where a waker is already set.
    pub open spec fn join_waker_set(self) -> Option<SnapshotView> {
        if self.join_interested && !self.join_waker && !self.complete {
            Some(SnapshotView { join_waker: true, ..self })
        } else {
            None
        }
    }

    /// Clearing `JOIN_WAKER`, which fails once the task is complete, without
    /// join interest, and where no waker is set.
    pub open spec fn join_waker_unset(self) -> Option<SnapshotView> {
        if self.join_interested && self.join_waker && !self.complete {
            Some(SnapshotView { join_waker: false, ..self })
        } else {
            None
        }
    }

    /// What a join handle that is polled has to do in this state.
    pub open spec fn join_wait(self) -> JoinWait {
        if self.complete {
            JoinWait::Ready
        } else if self.join_waker {
            JoinWait::ClearWaker
        } else {
            JoinWait::StoreWaker
        }
    }

    /// What is to be done with the output when the task completes in this
    /// state.
    pub open spec fn output_action(self) -> OutputAction {
        if !self.join_interested {
            OutputAction::Discard
        } else if self.join_waker {
            OutputAction::Wake
        } else {
            OutputAction::Keep
        }
    }

    /// One reference more.
    pub open spec fn ref_inc(self) -> SnapshotView {
        SnapshotView { ref_count: self.ref_count + 1, ..self }
    }

    /// One reference less.
    pub open spec fn ref_dec(self) -> SnapshotView {
        SnapshotView { ref_count: (self.ref_count - 1) as nat, ..self }
    }

    /// Whether the reference that is given up is the last one.
    pub open spec fn ref_dec_releases(self) -> bool {
        self.ref_count == 1
    }
}

/// One value of the state word.
#[derive(Clone, Copy, Debug)]
pub struct Snapshot(usize);

impl View for Snapshot {
    type V = SnapshotView;

    open spec fn view(&self) -> SnapshotView {
        SnapshotView {
            running: self.spec_bits() & RUNNING == RUNNING,
            complete: self.spec_bits() & COMPLETE == COMPLETE,
            notified: self.spec_bits() & NOTIFIED == NOTIFIED,
            join_interested: self.spec_bits() & JOIN_INTEREST == JOIN_INTEREST,
            join_waker: self.spec_bits() & JOIN_WAKER == JOIN_WAKER,
            ref_count: ((self.spec_bits() & REF_COUNT_MASK) >> REF_COUNT_SHIFT) as nat,
        }
    }
}

/// Setting one flag bit changes that flag and nothing else.
proof fn lemma_set_flag(v: usize, b: usize)
    by (bit_vector)
    requires
        b == 1 || b == 2 || b == 4 || b == 8 || b == 16,
    ensures
        (v | b) & b == b,
        b != 1 ==> (v | b) & 1 == v & 1,
        b != 2 ==> (v | b) & 2 == v & 2,
        b != 4 ==> (v | b) & 4 == v & 4,
        b != 8 ==> (v | b) & 8 == v & 8,
        b != 16 ==> (v | b) & 16 == v & 16,
        ((v | b) & !0b1_1111usize) >> 5 == (v & !0b1_1111usize) >> 5,
{
}

/// Clearing one flag bit changes that flag and nothing else.
proof fn lemma_clear_flag(v: usize, b: usize)
    by (bit_vector)
    requires
        b == 1 || b == 2 || b == 4 || b == 8 || b == 16,
    ensures
        (v & !b) & b == 0,
        b != 1 ==> (v & !b) & 1 == v & 1,
        b != 2 ==> (v & !b) & 2 == v & 2,
        b != 4 ==> (v & !b) & 4 == v & 4,
        b != 8 ==> (v & !b) & 8 == v & 8,
        b != 16 ==> (v & !b) & 16 == v & 16,
        ((v & !b) & !0b1_1111usize) >> 5 == (v & !0b1_1111usize) >> 5,
{
}

impl Snapshot {
    /// The raw word.
    pub closed spec fn spec_bits(self) -> usize {
        self.0
    }

    /// The snapshot that a raw word stands for.
    pub fn from_bits(bits: usize) -> (s: Snapshot)
        ensures
            s.spec_bits() == bits,
    {
        Snapshot(bits)
    }

    /// The raw word.
    #[verifier::when_used_as_spec(spec_bits)]
    pub fn bits(self) -> (bits: usize)
        ensures
            bits == self.spec_bits(),
    {
        self.0
    }

    /// Returns `true` if the task is neither running nor complete.
    pub fn is_idle(self) -> (r: bool)
        ensures
            r == self@.is_idle(),
    {
        let v = self.0;
        assert(v & (1usize | 2usize) == 0 <==> (v & 1 != 1 && v & 2 != 2)) by (bit_vector);
        self.0 & (RUNNING | COMPLETE) == 0
    }

    /// Returns `true` if the task has been flagged as notified.
    pub fn is_notified(self) -> (r: bool)
        ensures
            r == self@.notified,
    {
        self.0 & NOTIFIED == NOTIFIED
    }

    pub fn unset_notified(&mut self)
        ensures
            final(self)@ == (SnapshotView { notified: false, ..old(self)@ }),
    {
        proof {
            lemma_clear_flag(self.0, NOTIFIED);
        }
        self.0 &= !NOTIFIED
    }

    pub fn set_notified(&mut self)
        ensures
            final(self)@ == (SnapshotView { notified: true, ..old(self)@ }),
    {
        proof {
            lemma_set_flag(self.0, NOTIFIED);
        }
        self.0 |= NOTIFIED
    }

    /// Returns `true` if the task is being polled.
    pub fn is_running(self) -> (r: bool)
        ensures
            r == self@.running,
    {
        self.0 & RUNNING == RUNNING
    }

    pub fn set_running(&mut self)
        ensures
            final(self)@ == (SnapshotView { running: true, ..old(self)@ }),
    {
        proof {
            lemma_set_flag(self.0, RUNNING);
        }
        self.0 |= RUNNING;
    }

    pub fn unset_running(&mut self)
        ensures
            final(self)@ == (SnapshotView { running: false, ..old(self)@ }),
    {
        proof {
            lemma_clear_flag(self.0, RUNNING);
        }
        self.0 &= !RUNNING;
    }

    /// Returns `true` if the task's future has completed execution.
    pub fn is_complete(self) -> (r: bool)
        ensures
            r == self@.complete,
    {
        self.0 & COMPLETE == COMPLETE
    }

    /// Returns `true` if the join handle is still around.
    pub fn is_join_interested(self) -> (r: bool)
        ensures
            r == self@.join_interested,
    {
        self.0 & JOIN_INTEREST == JOIN_INTEREST
    }

    pub fn unset_join_interested(&mut self)
        ensures
            final(self)@ == (SnapshotView { join_interested: false, ..old(self)@ }),
    {
        proof {
            lemma_clear_flag(self.0, JOIN_INTEREST);
        }
        self.0 &= !JOIN_INTEREST
    }

    /// Returns `true` if the join handle has stored a waker.
    pub fn has_join_waker(self) -> (r: bool)
        ensures
            r == self@.join_waker,
    {
        self.0 & JOIN_WAKER == JOIN_WAKER
    }

    pub fn set_join_waker(&mut self)
        ensures
            final(self)@ == (SnapshotView { join_waker: true, ..old(self)@ }),
    {
        proof {
            lemma_set_flag(self.0, JOIN_WAKER);
        }
        self.0 |= JOIN_WAKER;
    }

    pub fn unset_join_waker(&mut self)
        ensures
            final(self)@ == (SnapshotView { join_waker: false, ..old(self)@ }),
    {
        proof {
            lemma_clear_flag(self.0, JOIN_WAKER);
        }
        self.0 &= !JOIN_WAKER
    }

    /// The number of references to the task.
    pub fn ref_count(self) -> (r: usize)
        ensures
            r == self@.ref_count,
    {
        (self.0 & REF_COUNT_MASK) >> REF_COUNT_SHIFT
    }

    /// The snapshot at the start of a poll.
    pub fn to_running(self) -> (next: Snapshot)
        ensures
            next@ == self@.to_running(),
    {
        let mut next = self;
        next.set_running();
        next.unset_notified();
        next
    }

    /// The snapshot at the end of a poll that left the task unfinished, and
    /// whether the task was woken during that poll.
    pub fn to_idle(self) -> (r: (TransitionToIdle, Snapshot))
        ensures
            r.0 == self@.idle_outcome(),
            r.1@ == self@.to_idle(),
    {
        let mut next = self;
        next.unset_running();
        let action = if next.is_notified() {
            TransitionToIdle::OkNotified
        } else {
            TransitionToIdle::OkIdle
        };
        (action, next)
    }

    /// The snapshot at the end of the poll that finished the task.
    pub fn to_complete(self) -> (next: Snapshot)
        ensures
            next@ == self@.to_complete(),
    {
        let v = self.0;
        proof {
            lemma_toggle_lifecycle(v);
        }
        Snapshot(v ^ (RUNNING | COMPLETE))
    }

    /// The snapshot after a wake, and what the waking context has to do.
    pub fn to_notified(self) -> (r: (TransitionToNotified, Snapshot))
        ensures
            r.0 == self@.notify_action(),
            r.1@ == self@.to_notified(),
    {
        let mut next = self;
        let action = if next.is_running() {
            next.set_notified();
            TransitionToNotified::DoNothing
        } else if next.is_complete() || next.is_notified() {
            TransitionToNotified::DoNothing
        } else {
            next.set_notified();
            TransitionToNotified::Submit
        };
        (action, next)
    }

    /// The snapshot after a wake that must not queue the task, and whether
    /// the wake could be recorded that way.
    pub fn to_notified_without_submit(self) -> (r: (bool, Snapshot))
        ensures
            r.0 == self@.notifies_without_submit(),
            r.1@ == self@.to_notified_without_submit(),
    {
        let mut next = self;
        if next.is_running() {
            next.set_notified();
            (true, next)
        } else if next.is_complete() || next.is_notified() {
            (true, next)
        } else {
            (false, next)
        }
    }

    /// The snapshot after the join handle is dropped right after the spawn,
    /// or `None` if anything has happened to the task since.
    pub fn join_handle_dropped_fast(self) -> (r: Option<Snapshot>)
        ensures
            match r {
                Some(next) => self@.join_handle_dropped_fast() == Some(next@),
                None => self@.join_handle_dropped_fast() is None,
            },
    {
        let v = self.0;
        proof {
            lemma_initial_state(v);
        }
        if v == INITIAL_STATE {
            Some(Snapshot((INITIAL_STATE - REF_ONE) & !JOIN_INTEREST))
        } else {
            None
        }
    }

    /// The snapshot without `JOIN_INTEREST`, or `None` where the bit cannot
    /// be cleared any more.
    pub fn join_interest_unset(self) -> (r: Option<Snapshot>)
        ensures
            match r {
                Some(next) => self@.join_interest_unset() == Some(next@),
                None => self@.join_interest_unset() is None,
            },
    {
        if !self.is_join_interested() || self.is_complete() {
            return None;
        }
        let mut next = self;
        next.unset_join_interested();
        Some(next)
    }

    /// The snapshot with `JOIN_WAKER`, or `None` where the bit cannot be set.
    pub fn join_waker_set(self) -> (r: Option<Snapshot>)
        ensures
            match r {
                Some(next) => self@.join_waker_set() == Some(next@),
                None => self@.join_waker_set() is None,
            },
    {
        if !self.is_join_interested() || self.has_join_waker() || self.is_complete() {
            return None;
        }
        let mut next = self;
        next.set_join_waker();
        Some(next)
    }

    /// The snapshot without `JOIN_WAKER`, or `None` where the bit cannot be
    /// cleared.
    pub fn join_waker_unset(self) -> (r: Option<Snapshot>)
        ensures
            match r {
                Some(next) => self@.join_waker_unset() == Some(next@),
                None => self@.join_waker_unset() is None,
            },
    {
        if !self.is_join_interested() || !self.has_join_waker() || self.is_complete() {
            return None;
        }
        let mut next = self;
        next.unset_join_waker();
        Some(next)
    }

    /// What a join handle that is polled has to do, given that this is the
    /// snapshot it finds.
    pub fn join_wait(self) -> (wait: JoinWait)
        ensures
            wait == self@.join_wait(),
    {
        if self.is_complete() {
            JoinWait::Ready
        } else if self.has_join_waker() {
            JoinWait::ClearWaker
        } else {
            JoinWait::StoreWaker
        }
    }

    /// What is to be done with the output of the task, given that this is the
    /// snapshot after its completion.
    pub fn output_action(self) -> (action: OutputAction)
        ensures
            action == self@.output_action(),
    {
        if !self.is_join_interested() {
            OutputAction::Discard
        } else if self.has_join_waker() {
            OutputAction::Wake
        } else {
            OutputAction::Keep
        }
    }

    /// The snapshot with one reference more, and whether the word has grown
    /// past half its range, which a caller answers by aborting.
    pub fn ref_inc(self) -> (r: (bool, Snapshot))
        requires
            self@.ref_count < max_ref_count(),
        ensures
            r.0 == (self.bits() > usize::MAX / 2),
            r.1@ == self@.ref_inc(),
    {
        let v = self.0;
        proof {
            lemma_word_parts(v);
        }
        let sum = v + REF_ONE;
        proof {
            lemma_add_reference(v, sum);
        }
        (v > usize::MAX / 2, Snapshot(sum))
    }

    /// The snapshot with one reference less, and whether that reference was
    /// the last one.
    pub fn ref_dec(self) -> (r: (bool, Snapshot))
        requires
            self@.ref_count >= 1,
        ensures
            r.0 == self@.ref_dec_releases(),
            r.1@ == self@.ref_dec(),
    {
        let v = self.0;
        proof {
            lemma_word_parts(v);
        }
        let rest = v - REF_ONE;
        proof {
            lemma_add_reference(rest, v);
        }
        (self.ref_count() == 1, Snapshot(rest))
    }
}

/// A word is its reference count times `REF_ONE` plus its flag bits.
proof fn lemma_word_parts(v: usize)
    by (bit_vector)
    ensures
        v == 32 * ((v & !0b1_1111usize) >> 5) + (v & 0b1_1111usize),
        v & 0b1_1111usize < 32,
{
}

/// A word that is `REF_ONE` more than another has the same flags and a count
/// that is one more.
proof fn lemma_add_reference(v: usize, sum: usize)
    by (bit_vector)
    requires
        sum == v + 32,
    ensures
        sum & 1 == v & 1,
        sum & 2 == v & 2,
        sum & 4 == v & 4,
        sum & 8 == v & 8,
        sum & 16 == v & 16,
        (sum & !0b1_1111usize) >> 5 == ((v & !0b1_1111usize) >> 5) + 1,
{
}

/// Flipping both lifecycle bits leaves the other flags and the reference
/// count alone.
proof fn lemma_toggle_lifecycle(v: usize)
    by (bit_vector)
    ensures
        ((v ^ (1usize | 2usize)) & 1 == 1) == (v & 1 != 1),
        ((v ^ (1usize | 2usize)) & 2 == 2) == (v & 2 != 2),
        (v ^ (1usize | 2usize)) & 4 == v & 4,
        (v ^ (1usize | 2usize)) & 8 == v & 8,
        (v ^ (1usize | 2usize)) & 16 == v & 16,
        ((v ^ (1usize | 2usize)) & !0b1_1111usize) >> 5 == (v & !0b1_1111usize) >> 5,
{
}

/// The initial word is the only one with the initial meaning, and dropping
/// the join handle from it leaves one reference and `NOTIFIED`.
proof fn lemma_initial_state(v: usize)
    by (bit_vector)
    ensures
        v == 0b100_1100usize <==> (v & 1 != 1 && v & 2 != 2 && v & 4 == 4 && v & 8 == 8 && v & 16
            != 16 && (v & !0b1_1111usize) >> 5 == 2),
        0b10_1100usize & !0b1000usize == 0b10_0100usize,
        0b10_0100usize & 1 != 1,
        0b10_0100usize & 2 != 2,
        0b10_0100usize & 4 == 4,
        0b10_0100usize & 8 != 8,
        0b10_0100usize & 16 != 16,
        (0b10_0100usize & !0b1_1111usize) >> 5 == 1,
{
}

/// The result of a conditional update: `Ok` with the new snapshot where the
/// update was made, `Err` with the snapshot that forbade it.
pub type UpdateResult = Result<Snapshot, Snapshot>;

/// Whether a conditional update failed because the task is complete.
pub open spec fn spec_failed_on_complete(update: UpdateResult) -> bool {
    update matches Err(found) && found@.complete
}

/// Whether a conditional update of the join bits failed because the task is
/// complete, in which case the output of the task is there. An update that
/// failed on a task that runs on found the join bits in a state that its
/// caller did not expect, and says nothing of the output.
#[verifier::when_used_as_spec(spec_failed_on_complete)]
pub fn failed_on_complete(update: UpdateResult) -> (complete: bool)
    ensures
        complete == spec_failed_on_complete(update),
{
    match update {
        Ok(_) => false,
        Err(found) => found.is_complete(),
    }
}

impl JoinDropped {
    /// What is left to be done after a join handle was dropped in two steps.
    ///
    /// `cleared` is what clearing the join interest returned: where it failed
    /// because the task is complete, the output is dropped, since nobody is
    /// left to read it. `release` is what giving up the reference returned.
    pub fn in_two_steps(cleared: UpdateResult, release: bool) -> (dropped: JoinDropped)
        ensures
            dropped == (JoinDropped { drop_output: failed_on_complete(cleared), release }),
    {
        JoinDropped { drop_output: failed_on_complete(cleared), release }
    }
}

/// The atomic state word of one task.
#[derive(Debug)]
pub struct State(AtomicUsize);

/// Calls `AtomicUsize::fetch_update` of std with acquire-release ordering.
///
/// Std applies `f` to the value of the cell, again if the cell changed in
/// between, until `f` gives `None` or the new value is stored in place of the
/// value that `f` was given. It returns that last value that `f` saw: as `Ok`
/// if `f` gave a new value for it, which is then stored, as `Err` if `f` gave
/// `None` for it.
#[verifier::external_body]
fn fetch_update_raw<F: Fn(usize) -> Option<usize>>(cell: &AtomicUsize, f: F) -> (r: Result<
    usize,
    usize,
>)
    requires
        forall|v: usize| call_requires(f, (v,)),
    ensures
        match r {
            Ok(prev) => exists|next: usize| call_ensures(f, (prev,), Some(next)),
            Err(prev) => call_ensures(f, (prev,), None::<usize>),
        },
{
    cell.fetch_update(Ordering::AcqRel, Ordering::Acquire, f)
}

impl State {
    /// The state of a freshly spawned task.
    pub fn new() -> State {
        State(AtomicUsize::new(INITIAL_STATE))
    }

    /// The current value.
    pub fn load(&self) -> Snapshot {
        Snapshot(self.0.load(Ordering::Acquire))
    }

    /// Starts a poll: sets `RUNNING` and clears `NOTIFIED`, so that a wake
    /// during the poll can be told from the one that caused it. The task must
    /// be idle and notified.
    pub fn transition_to_running(&self) {
        let step = |curr: Snapshot| -> (o: ((), Option<Snapshot>)) { ((), Some(curr.to_running())) };
        self.fetch_update_action(step);
    }

    /// Ends a poll that left the task unfinished. `OkNotified` says that the
    /// task was woken while it ran: that wake pushed nothing, so the caller
    /// must schedule the task again.
    pub fn transition_to_idle(&self) -> (r: TransitionToIdle)
        ensures
            exists|prev: Snapshot| r == prev@.idle_outcome(),
    {
        let step = |curr: Snapshot| -> (o: (TransitionToIdle, Option<Snapshot>))
            ensures
                o.0 == curr@.idle_outcome()
            {
                let (action, next) = curr.to_idle();
                (action, Some(next))
            };
        self.fetch_update_action(step)
    }

    /// Ends the poll that finished the task: flips `RUNNING` and `COMPLETE`
    /// in one atomic step and returns the snapshot after it.
    pub fn transition_to_complete(&self) -> (next: Snapshot)
        ensures
            exists|prev: Snapshot| next@ == prev@.to_complete(),
    {
        let prev = Snapshot(self.0.fetch_xor(RUNNING | COMPLETE, Ordering::AcqRel));
        prev.to_complete()
    }

    /// Records a wake if that needs no push to a run queue. Returns `false`
    /// if the task is idle and not notified, in which case nothing changed.
    pub fn transition_to_notified_without_submit(&self) -> (r: bool)
        ensures
            exists|prev: Snapshot| r == prev@.notifies_without_submit(),
    {
        let step = |curr: Snapshot| -> (o: (bool, Option<Snapshot>))
            ensures
                o.0 == curr@.notifies_without_submit()
            {
                let (done, next) = curr.to_notified_without_submit();
                (done, Some(next))
            };
        self.fetch_update_action(step)
    }

    /// Records a wake. `Submit` is returned to exactly one caller per run
    /// cycle, the one that found the task idle and not notified: that caller
    /// must push the task to the run queue.
    pub fn transition_to_notified(&self) -> (r: TransitionToNotified)
        ensures
            exists|prev: Snapshot| r == prev@.notify_action(),
    {
        let step = |curr: Snapshot| -> (o: (TransitionToNotified, Option<Snapshot>))
            ensures
                o.0 == curr@.notify_action()
            {
                let (action, next) = curr.to_notified();
                (action, Some(next))
            };
        self.fetch_update_action(step)
    }

    /// Drops the join handle on the assumption that nothing has happened to
    /// the task since the spawn. Fails if the state is no longer the initial
    /// one.
    pub fn drop_join_handle_fast(&self) -> (r: Result<(), ()>)
        ensures
            r is Ok ==> exists|prev: Snapshot| prev@.join_handle_dropped_fast() is Some,
            r is Err ==> exists|prev: Snapshot| prev@.join_handle_dropped_fast() is None,
    {
        let step = |curr: Snapshot| -> (o: Option<Snapshot>)
            ensures
                match o {
                    Some(next) => curr@.join_handle_dropped_fast() == Some(next@),
                    None => curr@.join_handle_dropped_fast() is None,
                }
            { curr.join_handle_dropped_fast() };
        match self.fetch_update(step) {
            Ok(_) => Ok(()),
            Err(_) => Err(()),
        }
    }

    /// Tries to clear `JOIN_INTEREST`.
    ///
    /// Returns `Ok` with the new snapshot if the bit was cleared before the
    /// task completed. Returns `Err` with the snapshot found if the task is
    /// complete, so that the caller reads the stored output, or if the bit
    /// was not set.
    pub fn unset_join_interested(&self) -> (r: UpdateResult)
        ensures
            match r {
                Ok(next) => exists|prev: Snapshot| prev@.join_interest_unset() == Some(next@),
                Err(prev) => prev@.join_interest_unset() is None,
            },
    {
        let step = |curr: Snapshot| -> (o: Option<Snapshot>)
            ensures
                match o {
                    Some(next) => curr@.join_interest_unset() == Some(next@),
                    None => curr@.join_interest_unset() is None,
                }
            { curr.join_interest_unset() };
        self.fetch_update(step)
    }

    /// Tries to set `JOIN_WAKER`.
    ///
    /// Returns `Ok` with the new snapshot if the bit was set. Returns `Err`
    /// with the snapshot found if the task is complete, or if the join handle
    /// is gone or a waker is set already.
    pub fn set_join_waker(&self) -> (r: UpdateResult)
        ensures
            match r {
                Ok(next) => exists|prev: Snapshot| prev@.join_waker_set() == Some(next@),
                Err(prev) => prev@.join_waker_set() is None,
            },
    {
        let step = |curr: Snapshot| -> (o: Option<Snapshot>)
            ensures
                match o {
                    Some(next) => curr@.join_waker_set() == Some(next@),
                    None => curr@.join_waker_set() is None,
                }
            { curr.join_waker_set() };
        self.fetch_update(step)
    }

    /// Tries to clear `JOIN_WAKER`.
    ///
    /// Returns `Ok` with the new snapshot if the bit was cleared. Returns
    /// `Err` with the snapshot found if the task is complete, or if the join
    /// handle is gone or no waker is set.
    pub fn unset_waker(&self) -> (r: UpdateResult)
        ensures
            match r {
                Ok(next) => exists|prev: Snapshot| prev@.join_waker_unset() == Some(next@),
                Err(prev) => prev@.join_waker_unset() is None,
            },
    {
        let step = |curr: Snapshot| -> (o: Option<Snapshot>)
            ensures
                match o {
                    Some(next) => curr@.join_waker_unset() == Some(next@),
                    None => curr@.join_waker_unset() is None,
                }
            { curr.join_waker_unset() };
        self.fetch_update(step)
    }

    /// Drops the join handle: in one step if nothing has happened to the
    /// task since the spawn, else by clearing the join interest and giving up
    /// the reference of the handle. Where the join interest cannot be cleared
    /// because the task has completed, the output is there and nobody will
    /// read it: the caller drops it. Where it cannot be cleared on a task that
    /// runs on, the handle held no join interest, and no output is dropped.
    pub fn drop_join_handle(&self) -> (dropped: JoinDropped)
        ensures
            dropped.drop_output ==> exists|prev: Snapshot|
                prev@.complete && prev@.join_interest_unset() is None,
            dropped.release ==> exists|prev: Snapshot| prev@.ref_dec_releases(),
    {
        match self.drop_join_handle_fast() {
            Ok(_) => JoinDropped { drop_output: false, release: false },
            Err(_) => {
                let cleared = self.unset_join_interested();
                let release = self.ref_dec();
                JoinDropped::in_two_steps(cleared, release)
            },
        }
    }

    /// Prepares the join handle to wait: says whether the task has completed,
    /// in which case the output is to be taken, and else clears the waker that
    /// an earlier poll has left, so that a new one can be stored. A waker
    /// that cannot be cleared makes the output ready only where the task was
    /// found complete.
    pub fn join_is_ready(&self) -> (ready: bool)
        ensures
            ready ==> exists|prev: Snapshot| prev@.complete,
    {
        match self.load().join_wait() {
            JoinWait::Ready => true,
            JoinWait::ClearWaker => failed_on_complete(self.unset_waker()),
            JoinWait::StoreWaker => false,
        }
    }

    /// Adds a reference. Returns `true` if the count has overflowed, which
    /// the caller must answer by aborting the process.
    #[must_use]
    pub fn ref_inc(&self) -> (overflow: bool)
        ensures
            exists|prev: Snapshot| overflow == (prev.bits() > usize::MAX / 2),
    {
        let prev = Snapshot(self.0.fetch_add(REF_ONE, Ordering::Relaxed));
        let overflow = prev.0 > usize::MAX / 2;
        assert(overflow == (prev.bits() > usize::MAX / 2));
        overflow
    }

    /// Gives up a reference. Returns `true` if it was the last one, in which
    /// case the caller must release the task.
    pub fn ref_dec(&self) -> (release: bool)
        ensures
            exists|prev: Snapshot| release == prev@.ref_dec_releases(),
    {
        let prev = Snapshot(self.0.fetch_sub(REF_ONE, Ordering::AcqRel));
        prev.ref_count() == 1
    }

    /// Applies `f` atomically to the current snapshot and returns the output
    /// that `f` gave for the snapshot it was applied to.
    fn fetch_update_action<F, T>(&self, f: F) -> (out: T) where
        F: Fn(Snapshot) -> (T, Option<Snapshot>),

        requires
            forall|s: Snapshot| call_requires(f, (s,)),
        ensures
            exists|prev: Snapshot, next: Option<Snapshot>| call_ensures(f, (prev,), (out, next)),
    {
        let raw = |v: usize| -> (o: Option<usize>)
            {
                match f(Snapshot(v)).1 {
                    Some(next) => Some(next.0),
                    None => None,
                }
            };
        let prev = match fetch_update_raw(&self.0, raw) {
            Ok(prev) => prev,
            Err(prev) => prev,
        };
        let (out, next) = f(Snapshot(prev));
        assert(call_ensures(f, (Snapshot(prev),), (out, next)));
        out
    }

    /// Applies `f` atomically to the current snapshot. Returns `Ok` with the
    /// new snapshot, or `Err` with the snapshot for which `f` gave `None`.
    fn fetch_update<F>(&self, f: F) -> (r: UpdateResult) where
        F: Fn(Snapshot) -> Option<Snapshot>,

        requires
            forall|s: Snapshot| call_requires(f, (s,)),
            forall|s: Snapshot, a: Option<Snapshot>, b: Option<Snapshot>|
                call_ensures(f, (s,), a) && call_ensures(f, (s,), b) ==> (a is None <==> b is None),
        ensures
            r matches Ok(next) ==> exists|prev: Snapshot| call_ensures(f, (prev,), Some(next)),
            r matches Err(prev) ==> call_ensures(f, (prev,), None::<Snapshot>),
    {
        let step = &f;
        let raw = |v: usize| -> (o: Option<usize>)
            ensures
                exists|n: Option<Snapshot>|
                    call_ensures(*step, (Snapshot(v),), n) && (o is None <==> n is None)
            {
                match step(Snapshot(v)) {
                    Some(next) => Some(next.0),
                    None => None,
                }
            };
        let res = fetch_update_raw(&self.0, raw);
        let ghost seen = match res {
            Ok(prev) => Snapshot(prev),
            Err(prev) => Snapshot(prev),
        };
        let r = match res {
            Ok(prev) => {
                match f(Snapshot(prev)) {
                    Some(next) => Ok(next),
                    None => {
                        assert(false);
                        Err(Snapshot(prev))
                    },
                }
            },
            Err(prev) => Err(Snapshot(prev)),
        };
        assert(r matches Ok(next) ==> call_ensures(f, (seen,), Some(next)));
        r
    }
}

} // verus!
