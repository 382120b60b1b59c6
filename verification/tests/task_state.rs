use uring_runtime::task::state::failed_on_complete;
use uring_runtime::task::state::JoinDropped;
use uring_runtime::task::state::JoinWait;
use uring_runtime::task::state::OutputAction;
use uring_runtime::task::state::Snapshot;
use uring_runtime::task::state::State;
use uring_runtime::task::state::TransitionToIdle;
use uring_runtime::task::state::TransitionToNotified;
use uring_runtime::task::state::COMPLETE;
use uring_runtime::task::state::INITIAL_STATE;
use uring_runtime::task::state::JOIN_INTEREST;
use uring_runtime::task::state::JOIN_WAKER;
use uring_runtime::task::state::NOTIFIED;
use uring_runtime::task::state::REF_COUNT_MASK;
use uring_runtime::task::state::REF_COUNT_SHIFT;
use uring_runtime::task::state::REF_ONE;
use uring_runtime::task::state::RUNNING;
use uring_runtime::task::state::STATE_MASK;

fn flags(s: Snapshot) -> (bool, bool, bool, bool, bool, usize) {
    (
        s.is_running(),
        s.is_complete(),
        s.is_notified(),
        s.is_join_interested(),
        s.has_join_waker(),
        s.ref_count(),
    )
}

#[test]
fn constants_fit_together() {
    assert_eq!(STATE_MASK, RUNNING | COMPLETE | NOTIFIED | JOIN_INTEREST | JOIN_WAKER);
    assert_eq!(REF_COUNT_MASK, !STATE_MASK);
    assert_eq!(REF_COUNT_SHIFT, REF_COUNT_MASK.count_zeros() as usize);
    assert_eq!(REF_ONE, 1 << REF_COUNT_SHIFT);
    assert_eq!(INITIAL_STATE, (REF_ONE * 2) | JOIN_INTEREST | NOTIFIED);
    assert_eq!(INITIAL_STATE, 76);
}

#[test]
fn new_state_is_initial() {
    let state = State::new();
    let s = state.load();
    assert_eq!(s.bits(), INITIAL_STATE);
    assert_eq!(flags(s), (false, false, true, true, false, 2));
    assert!(s.is_idle());
}

#[test]
fn snapshot_getters_read_their_bits() {
    let s = Snapshot::from_bits(RUNNING | JOIN_WAKER | (REF_ONE * 5));
    assert_eq!(flags(s), (true, false, false, false, true, 5));
    assert!(!s.is_idle());
    let s = Snapshot::from_bits(COMPLETE);
    assert_eq!(flags(s), (false, true, false, false, false, 0));
    assert!(!s.is_idle());
    let s = Snapshot::from_bits(0);
    assert!(s.is_idle());
}

#[test]
fn snapshot_setters_change_one_flag() {
    let mut s = Snapshot::from_bits(REF_ONE * 3);
    s.set_notified();
    assert_eq!(s.bits(), REF_ONE * 3 | NOTIFIED);
    s.set_running();
    assert_eq!(s.bits(), REF_ONE * 3 | NOTIFIED | RUNNING);
    s.set_join_waker();
    assert_eq!(s.bits(), REF_ONE * 3 | NOTIFIED | RUNNING | JOIN_WAKER);
    s.unset_notified();
    assert_eq!(s.bits(), REF_ONE * 3 | RUNNING | JOIN_WAKER);
    s.unset_running();
    assert_eq!(s.bits(), REF_ONE * 3 | JOIN_WAKER);
    s.unset_join_waker();
    assert_eq!(s.bits(), REF_ONE * 3);
    let mut s = Snapshot::from_bits(INITIAL_STATE);
    s.unset_join_interested();
    assert_eq!(s.bits(), REF_ONE * 2 | NOTIFIED);
}

#[test]
fn run_cycle_without_wake() {
    let state = State::new();
    state.transition_to_running();
    assert_eq!(flags(state.load()), (true, false, false, true, false, 2));
    assert_eq!(state.transition_to_idle(), TransitionToIdle::OkIdle);
    assert_eq!(flags(state.load()), (false, false, false, true, false, 2));
}

#[test]
fn wake_while_idle_submits_once() {
    let state = State::new();
    state.transition_to_running();
    let _ = state.transition_to_idle();
    assert_eq!(state.transition_to_notified(), TransitionToNotified::Submit);
    assert_eq!(state.transition_to_notified(), TransitionToNotified::DoNothing);
    assert_eq!(state.transition_to_notified(), TransitionToNotified::DoNothing);
    assert!(state.load().is_notified());
    assert!(state.load().is_idle());
}

#[test]
fn wake_while_running_is_reported_at_idle() {
    let state = State::new();
    state.transition_to_running();
    assert_eq!(state.transition_to_notified(), TransitionToNotified::DoNothing);
    assert_eq!(state.transition_to_notified(), TransitionToNotified::DoNothing);
    assert!(state.load().is_notified());
    assert_eq!(state.transition_to_idle(), TransitionToIdle::OkNotified);
    assert_eq!(flags(state.load()), (false, false, true, true, false, 2));
    assert_eq!(state.transition_to_notified(), TransitionToNotified::DoNothing);
}

#[test]
fn wake_of_fresh_task_does_nothing() {
    let state = State::new();
    assert_eq!(state.transition_to_notified(), TransitionToNotified::DoNothing);
    assert_eq!(state.load().bits(), INITIAL_STATE);
}

#[test]
fn completion_flips_both_lifecycle_bits() {
    let state = State::new();
    state.transition_to_running();
    let after = state.transition_to_complete();
    assert_eq!(flags(after), (false, true, false, true, false, 2));
    assert_eq!(state.load().bits(), after.bits());
    assert_eq!(state.transition_to_notified(), TransitionToNotified::DoNothing);
    assert!(!state.load().is_notified());
}

#[test]
fn notify_without_submit() {
    let state = State::new();
    assert!(state.transition_to_notified_without_submit());
    state.transition_to_running();
    assert!(state.transition_to_notified_without_submit());
    assert!(state.load().is_notified());
    assert_eq!(state.transition_to_idle(), TransitionToIdle::OkNotified);
    state.transition_to_running();
    let _ = state.transition_to_idle();
    assert!(!state.transition_to_notified_without_submit());
    assert!(!state.load().is_notified());
    state.transition_to_notified_without_submit();
    let _ = state.transition_to_notified();
    state.transition_to_running();
    let _ = state.transition_to_complete();
    assert!(state.transition_to_notified_without_submit());
    assert!(!state.load().is_notified());
}

#[test]
fn join_handle_fast_drop_only_from_initial_state() {
    let state = State::new();
    assert_eq!(state.drop_join_handle_fast(), Ok(()));
    assert_eq!(flags(state.load()), (false, false, true, false, false, 1));
    assert_eq!(state.drop_join_handle_fast(), Err(()));

    let state = State::new();
    state.transition_to_running();
    assert_eq!(state.drop_join_handle_fast(), Err(()));
    assert_eq!(flags(state.load()), (true, false, false, true, false, 2));
}

#[test]
fn join_interest_is_unset_before_completion() {
    let state = State::new();
    let next = state.unset_join_interested().unwrap();
    assert_eq!(flags(next), (false, false, true, false, false, 2));
    assert_eq!(state.load().bits(), next.bits());
}

#[test]
fn join_transitions_fail_once_complete() {
    let state = State::new();
    state.transition_to_running();
    let done = state.transition_to_complete();
    let seen = state.unset_join_interested().unwrap_err();
    assert_eq!(seen.bits(), done.bits());
    assert!(seen.is_complete());
    let seen = state.set_join_waker().unwrap_err();
    assert_eq!(seen.bits(), done.bits());
    let seen = state.unset_waker().unwrap_err();
    assert_eq!(seen.bits(), done.bits());
    assert_eq!(state.load().bits(), done.bits());
}

#[test]
fn join_waker_is_set_and_unset() {
    let state = State::new();
    let with = state.set_join_waker().unwrap();
    assert_eq!(flags(with), (false, false, true, true, true, 2));
    assert!(state.set_join_waker().is_err());
    let without = state.unset_waker().unwrap();
    assert_eq!(flags(without), (false, false, true, true, false, 2));
    assert!(state.unset_waker().is_err());
    assert_eq!(state.load().bits(), INITIAL_STATE);
}

#[test]
fn references_are_counted() {
    let state = State::new();
    assert!(!state.ref_inc());
    assert_eq!(state.load().ref_count(), 3);
    assert!(!state.ref_dec());
    assert!(!state.ref_dec());
    assert_eq!(state.load().ref_count(), 1);
    assert!(state.ref_dec());
    assert_eq!(state.load().ref_count(), 0);
}

#[test]
fn dropping_both_owners_releases_once_join_handle_first() {
    let state = State::new();
    assert_eq!(state.drop_join_handle_fast(), Ok(()));
    assert_eq!(state.load().ref_count(), 1);
    assert!(state.ref_dec());
}

#[test]
fn dropping_both_owners_releases_once_task_first() {
    let state = State::new();
    state.transition_to_running();
    let _ = state.transition_to_complete();
    assert!(!state.ref_dec());
    assert_eq!(state.load().ref_count(), 1);
    assert!(state.drop_join_handle_fast().is_err());
    assert!(state.unset_join_interested().is_err());
    assert!(state.ref_dec());
}

#[test]
fn pure_transitions_agree_with_the_cell() {
    let s = Snapshot::from_bits(INITIAL_STATE);
    let running = s.to_running();
    assert_eq!(running.bits(), REF_ONE * 2 | JOIN_INTEREST | RUNNING);
    let (action, woken) = running.to_notified();
    assert_eq!(action, TransitionToNotified::DoNothing);
    assert_eq!(woken.bits(), REF_ONE * 2 | JOIN_INTEREST | RUNNING | NOTIFIED);
    let (outcome, idle) = woken.to_idle();
    assert_eq!(outcome, TransitionToIdle::OkNotified);
    assert_eq!(idle.bits(), INITIAL_STATE);
    let (outcome, idle) = running.to_idle();
    assert_eq!(outcome, TransitionToIdle::OkIdle);
    assert_eq!(idle.bits(), REF_ONE * 2 | JOIN_INTEREST);
    let (action, woken) = idle.to_notified();
    assert_eq!(action, TransitionToNotified::Submit);
    assert_eq!(woken.bits(), INITIAL_STATE);
    let done = running.to_complete();
    assert_eq!(done.bits(), REF_ONE * 2 | JOIN_INTEREST | COMPLETE);
    let (action, same) = done.to_notified();
    assert_eq!(action, TransitionToNotified::DoNothing);
    assert_eq!(same.bits(), done.bits());
    assert_eq!(idle.to_notified_without_submit().0, false);
    assert_eq!(running.to_notified_without_submit().0, true);
    assert_eq!(
        running.to_notified_without_submit().1.bits(),
        REF_ONE * 2 | JOIN_INTEREST | RUNNING | NOTIFIED
    );
    let (recorded, same) = done.to_notified_without_submit();
    assert!(recorded);
    assert_eq!(same.bits(), done.bits());
}

#[test]
fn pure_join_transitions() {
    let s = Snapshot::from_bits(INITIAL_STATE);
    assert_eq!(s.join_handle_dropped_fast().unwrap().bits(), REF_ONE | NOTIFIED);
    assert!(s.to_running().join_handle_dropped_fast().is_none());
    assert_eq!(s.join_interest_unset().unwrap().bits(), REF_ONE * 2 | NOTIFIED);
    assert!(s.join_interest_unset().unwrap().join_interest_unset().is_none());
    assert_eq!(s.join_waker_set().unwrap().bits(), INITIAL_STATE | JOIN_WAKER);
    assert!(s.join_waker_set().unwrap().join_waker_set().is_none());
    assert!(s.join_waker_unset().is_none());
    assert_eq!(s.join_waker_set().unwrap().join_waker_unset().unwrap().bits(), INITIAL_STATE);
    let done = s.to_running().to_complete();
    assert!(done.join_interest_unset().is_none());
    assert!(done.join_waker_set().is_none());
    assert!(done.join_waker_unset().is_none());
}

#[test]
fn pure_reference_steps() {
    let s = Snapshot::from_bits(INITIAL_STATE);
    let (overflow, more) = s.ref_inc();
    assert!(!overflow);
    assert_eq!(more.bits(), INITIAL_STATE + REF_ONE);
    let (release, less) = s.ref_dec();
    assert!(!release);
    assert_eq!(less.bits(), INITIAL_STATE - REF_ONE);
    let (release, none) = less.ref_dec();
    assert!(release);
    assert_eq!(none.ref_count(), 0);
    let big = Snapshot::from_bits(usize::MAX / 2 + 1);
    assert!(big.ref_inc().0);
    let edge = Snapshot::from_bits(usize::MAX / 2);
    assert!(!edge.ref_inc().0);
}

#[test]
fn the_output_follows_the_join_bits() {
    let state = State::new();
    state.transition_to_running();
    assert_eq!(state.transition_to_complete().output_action(), OutputAction::Keep);

    let state = State::new();
    assert!(state.set_join_waker().is_ok());
    state.transition_to_running();
    assert_eq!(state.transition_to_complete().output_action(), OutputAction::Wake);

    let state = State::new();
    assert!(state.unset_join_interested().is_ok());
    state.transition_to_running();
    assert_eq!(state.transition_to_complete().output_action(), OutputAction::Discard);

    let gone = Snapshot::from_bits(COMPLETE | JOIN_WAKER | REF_ONE);
    assert_eq!(gone.output_action(), OutputAction::Discard);
}

#[test]
fn a_join_handle_is_dropped_fast_or_slow() {
    let state = State::new();
    assert_eq!(state.drop_join_handle(), JoinDropped { drop_output: false, release: false });
    assert_eq!(flags(state.load()), (false, false, true, false, false, 1));

    let state = State::new();
    state.transition_to_running();
    assert_eq!(state.drop_join_handle(), JoinDropped { drop_output: false, release: false });
    assert_eq!(flags(state.load()), (true, false, false, false, false, 1));
    assert_eq!(state.transition_to_complete().output_action(), OutputAction::Discard);
    assert!(state.ref_dec());

    let state = State::new();
    state.transition_to_running();
    let _ = state.transition_to_complete();
    assert!(!state.ref_dec());
    assert_eq!(state.drop_join_handle(), JoinDropped { drop_output: true, release: true });
    assert_eq!(state.load().ref_count(), 0);
}

#[test]
fn a_join_is_ready_once_the_task_is_complete() {
    let state = State::new();
    assert!(!state.join_is_ready());
    assert!(state.set_join_waker().is_ok());
    assert!(!state.join_is_ready());
    assert!(!state.load().has_join_waker());
    assert!(state.set_join_waker().is_ok());
    state.transition_to_running();
    let _ = state.transition_to_complete();
    assert!(state.join_is_ready());
    assert!(state.load().has_join_waker());
}

#[test]
fn a_polled_join_handle_follows_the_state_it_finds() {
    let fresh = Snapshot::from_bits(INITIAL_STATE);
    assert_eq!(fresh.join_wait(), JoinWait::StoreWaker);
    assert_eq!(fresh.join_waker_set().unwrap().join_wait(), JoinWait::ClearWaker);
    assert_eq!(fresh.to_running().join_wait(), JoinWait::StoreWaker);
    assert_eq!(fresh.to_running().to_complete().join_wait(), JoinWait::Ready);
    let done_with_waker = fresh.join_waker_set().unwrap().to_running().to_complete();
    assert_eq!(done_with_waker.join_wait(), JoinWait::Ready);
}

#[test]
fn a_slow_drop_of_the_join_handle_follows_its_two_steps() {
    let fresh = Snapshot::from_bits(INITIAL_STATE);
    let done = fresh.to_running().to_complete();
    let detached = fresh.join_interest_unset().unwrap();
    assert_eq!(
        JoinDropped::in_two_steps(Ok(fresh), false),
        JoinDropped { drop_output: false, release: false }
    );
    assert_eq!(
        JoinDropped::in_two_steps(Ok(fresh), true),
        JoinDropped { drop_output: false, release: true }
    );
    assert_eq!(
        JoinDropped::in_two_steps(Err(done), false),
        JoinDropped { drop_output: true, release: false }
    );
    assert_eq!(
        JoinDropped::in_two_steps(Err(done), true),
        JoinDropped { drop_output: true, release: true }
    );
    // A failure on a task that runs on says nothing of the output.
    assert_eq!(
        JoinDropped::in_two_steps(Err(detached), true),
        JoinDropped { drop_output: false, release: true }
    );
}

#[test]
fn an_update_fails_on_complete_only_where_the_task_is_complete() {
    let fresh = Snapshot::from_bits(INITIAL_STATE);
    let done = fresh.to_running().to_complete();
    assert!(!failed_on_complete(Ok(fresh)));
    assert!(!failed_on_complete(Ok(done)));
    assert!(!failed_on_complete(Err(fresh)));
    assert!(failed_on_complete(Err(done)));
}

#[test]
fn a_drop_without_join_interest_drops_no_output() {
    let state = State::new();
    state.transition_to_running();
    assert!(state.unset_join_interested().is_ok());
    // The interest is gone and the task runs on: clearing it again fails,
    // and the output, which is not there, is not dropped.
    assert_eq!(state.drop_join_handle(), JoinDropped { drop_output: false, release: false });
    assert_eq!(state.load().ref_count(), 1);
}

#[test]
fn a_stale_waker_that_cannot_be_cleared_makes_no_join_ready() {
    let state = State::new();
    assert!(state.set_join_waker().is_ok());
    assert!(state.unset_join_interested().is_ok());
    // The waker is set and the interest is gone: clearing the waker fails
    // on a task that runs on, which does not make the output ready.
    assert!(!state.join_is_ready());
    assert!(state.load().has_join_waker());
}
