use clippy_core::focus::{
    FocusAction, FocusEvent, FocusPoll, ModifierOutcome, ModifierWait, PollOutcome, TargetFocus,
    BLIND_FOCUS_RETURN_MS, FOCUS_POLL_INTERVAL_MS, MODIFIER_RELEASE_TIMEOUT_MS, WAIT_AFTER_RAISED_MS,
    WAIT_BEFORE_RAISE_MS, WAIT_RAISED_MS,
};
use clippy_core::target_window::{
    capture_target_window, current_window, get_target_window, is_own_window, raise_target_window,
    TargetWindowSlot,
};

#[test]
fn capture_records_and_keeps() {
    let mut slot = TargetWindowSlot::new();
    assert_eq!(get_target_window(&slot), None);
    assert_eq!(raise_target_window(&slot), None);
    capture_target_window(&mut slot, Some(42));
    assert_eq!(get_target_window(&slot), Some(42));
    capture_target_window(&mut slot, None);
    assert_eq!(get_target_window(&slot), Some(42));
    capture_target_window(&mut slot, Some(7));
    assert_eq!(get_target_window(&slot), Some(7));
    assert_eq!(raise_target_window(&slot), Some(7));
}

#[test]
fn current_window_filters() {
    assert_eq!(current_window(None, None, 100), None);
    assert_eq!(current_window(Some(0), Some(5), 100), None);
    assert_eq!(current_window(Some(9), Some(100), 100), None);
    assert_eq!(current_window(Some(9), Some(5), 100), Some(9));
    assert_eq!(current_window(Some(9), None, 100), Some(9));
    assert!(is_own_window(Some(3), 3));
    assert!(!is_own_window(None, 3));
    assert!(!is_own_window(Some(4), 3));
}

#[test]
fn own_window_never_becomes_target() {
    let mut slot = TargetWindowSlot::new();
    capture_target_window(&mut slot, Some(11));
    capture_target_window(&mut slot, current_window(Some(12), Some(77), 77));
    assert_eq!(get_target_window(&slot), Some(11));
}

#[test]
fn timing_constants() {
    assert_eq!(WAIT_BEFORE_RAISE_MS, 20);
    assert_eq!(WAIT_RAISED_MS, 150);
    assert_eq!(WAIT_AFTER_RAISED_MS, 50);
    assert_eq!(FOCUS_POLL_INTERVAL_MS, 10);
    assert_eq!(BLIND_FOCUS_RETURN_MS, 300);
    assert_eq!(MODIFIER_RELEASE_TIMEOUT_MS, 2000);
}

#[test]
fn poll_outcomes() {
    let poll = FocusPoll::start(5, 1000, 20);
    assert_eq!(poll.deadline_ms, 1020);
    assert_eq!(poll.observe(Some(5), 5000), PollOutcome::Focused);
    assert_eq!(poll.observe(Some(6), 1019), PollOutcome::Pending);
    assert_eq!(poll.observe(None, 1020), PollOutcome::TimedOut);
    let late = FocusPoll::start(5, u64::MAX - 3, 20);
    assert_eq!(late.deadline_ms, u64::MAX);
}

#[test]
fn blind_focus_without_target() {
    let (state, action) = TargetFocus::start(None, 0);
    assert_eq!(action, FocusAction::RaiseAndSleep(300));
    let (state, action) = state.step(FocusEvent::Tick { now_ms: 300 });
    assert_eq!(state, TargetFocus::Finished(true));
    assert_eq!(action, FocusAction::Finish(true));
}

#[test]
fn focus_arrives_before_raise() {
    let (state, action) = TargetFocus::start(Some(8), 100);
    assert_eq!(action, FocusAction::ReadFocus);
    let (state, action) = state.step(FocusEvent::Focus { current: Some(3), now_ms: 105 });
    assert_eq!(action, FocusAction::SleepThenReadFocus(10));
    let (state, action) = state.step(FocusEvent::Focus { current: Some(8), now_ms: 116 });
    assert_eq!(state, TargetFocus::Confirming);
    assert_eq!(action, FocusAction::Sleep(50));
    let (_, action) = state.step(FocusEvent::Tick { now_ms: 166 });
    assert_eq!(action, FocusAction::Finish(true));
}

#[test]
fn focus_arrives_after_raise() {
    let (state, _) = TargetFocus::start(Some(8), 100);
    let (state, action) = state.step(FocusEvent::Focus { current: None, now_ms: 120 });
    assert_eq!(action, FocusAction::Raise);
    assert_eq!(state, TargetFocus::Raising { target: 8 });
    let (state, action) = state.step(FocusEvent::Tick { now_ms: 130 });
    assert_eq!(action, FocusAction::ReadFocus);
    assert_eq!(
        state,
        TargetFocus::Polling { poll: FocusPoll { target: 8, deadline_ms: 280 }, raised: true }
    );
    let (state, action) = state.step(FocusEvent::Focus { current: Some(8), now_ms: 200 });
    assert_eq!(action, FocusAction::Sleep(50));
    let (_, action) = state.step(FocusEvent::Tick { now_ms: 250 });
    assert_eq!(action, FocusAction::Finish(true));
}

#[test]
fn focus_never_arrives() {
    let (state, _) = TargetFocus::start(Some(8), 0);
    let (state, _) = state.step(FocusEvent::Focus { current: Some(1), now_ms: 20 });
    let (state, _) = state.step(FocusEvent::Tick { now_ms: 25 });
    let (state, action) = state.step(FocusEvent::Focus { current: Some(1), now_ms: 100 });
    assert_eq!(action, FocusAction::SleepThenReadFocus(10));
    let (state, action) = state.step(FocusEvent::Focus { current: Some(1), now_ms: 175 });
    assert_eq!(state, TargetFocus::Finished(false));
    assert_eq!(action, FocusAction::Finish(false));
}

#[test]
fn mismatched_focus_event_gives_up() {
    let (state, _) = TargetFocus::start(Some(8), 0);
    let (state, action) = state.step(FocusEvent::Tick { now_ms: 1 });
    assert_eq!(state, TargetFocus::Finished(false));
    assert_eq!(action, FocusAction::Finish(false));
}

#[test]
fn modifier_wait() {
    let wait = ModifierWait::start(1000);
    assert_eq!(wait.deadline_ms, 3000);
    assert_eq!(wait.observe(false, 1000), ModifierOutcome::Released);
    assert_eq!(wait.observe(true, 2999), ModifierOutcome::Pending);
    assert_eq!(wait.observe(true, 3000), ModifierOutcome::TimedOut);
    assert_eq!(wait.observe(false, 9000), ModifierOutcome::Released);
}

#[test]
fn record_over_a_sequence_keeps_last_valid_window() {
    let own = 500;
    let mut slot = TargetWindowSlot::new();
    let reports: [(Option<u32>, Option<u32>); 6] = [
        (None, None),
        (Some(0), None),
        (Some(21), Some(3)),
        (Some(22), Some(own)),
        (None, None),
        (Some(0), Some(9)),
    ];
    let mut seen = Vec::new();
    for (active, pid) in reports {
        capture_target_window(&mut slot, current_window(active, pid, own));
        seen.push(get_target_window(&slot));
    }
    assert_eq!(seen, vec![None, None, Some(21), Some(21), Some(21), Some(21)]);
    assert_eq!(get_target_window(&slot), get_target_window(&slot));
}
