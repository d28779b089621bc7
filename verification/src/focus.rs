//! Waiting for the recorded window to regain focus, and for the user to let
//! go of the modifiers of the hotkey that drove the selection. The clock, the
//! focus queries, the raising and the sleeping are done by the caller, which
//! reports each result to the step functions here.
use vstd::prelude::*;

verus! {

// Mirrors CopyQ's window_wait_* defaults, which are tuned for the same job.
/// How long the recorded window gets to regain focus on its own.
pub const WAIT_BEFORE_RAISE_MS: u64 = 20;

/// How long the recorded window gets to take focus after it was raised.
pub const WAIT_RAISED_MS: u64 = 150;

/// How long to settle once the window has focus.
pub const WAIT_AFTER_RAISED_MS: u64 = 50;

/// Pause between two focus or modifier queries.
pub const FOCUS_POLL_INTERVAL_MS: u64 = 10;

/// Used where the focused window cannot be queried, so settling is all we can do.
pub const BLIND_FOCUS_RETURN_MS: u64 = 300;

/// Budget for the user to release a hotkey before the paste is sent regardless.
pub const MODIFIER_RELEASE_TIMEOUT_MS: u64 = 2000;

/// `now_ms + timeout_ms`, held at the largest timestamp rather than wrapping.
pub open spec fn spec_deadline(now_ms: u64, timeout_ms: u64) -> u64 {
    if now_ms + timeout_ms <= u64::MAX {
        (now_ms + timeout_ms) as u64
    } else {
        u64::MAX
    }
}

fn deadline(now_ms: u64, timeout_ms: u64) -> (d: u64)
    ensures
        d == spec_deadline(now_ms, timeout_ms),
{
    now_ms.saturating_add(timeout_ms)
}

/// The result of one look at the focused window.
#[derive(Clone, Copy, Debug, PartialEq, Eq, Structural)]
pub enum PollOutcome {
    /// The target has focus.
    Focused,
    /// The deadline passed without the target taking focus.
    TimedOut,
    /// Look again after a pause.
    Pending,
}

/// Waiting, until a deadline, for a window to have focus.
#[derive(Clone, Copy, Debug, PartialEq, Eq, Structural)]
pub struct FocusPoll {
    pub target: u32,
    pub deadline_ms: u64,
}

/// One look at the focused window: the target having focus wins over the
/// deadline, which ends the wait once the clock has reached it.
pub open spec fn spec_poll(poll: FocusPoll, current: Option<u32>, now_ms: u64) -> PollOutcome {
    if current == Some(poll.target) {
        PollOutcome::Focused
    } else if now_ms >= poll.deadline_ms {
        PollOutcome::TimedOut
    } else {
        PollOutcome::Pending
    }
}

impl FocusPoll {
    /// Starts waiting at `now_ms`, for at most `timeout_ms`.
    pub fn start(target: u32, now_ms: u64, timeout_ms: u64) -> (poll: Self)
        ensures
            poll.target == target,
            poll.deadline_ms == spec_deadline(now_ms, timeout_ms),
    {
        FocusPoll { target, deadline_ms: deadline(now_ms, timeout_ms) }
    }

    /// Judges one observation of the focused window made at `now_ms`.
    pub fn observe(&self, current: Option<u32>, now_ms: u64) -> (outcome: PollOutcome)
        ensures
            outcome == spec_poll(*self, current, now_ms),
    {
        if current == Some(self.target) {
            PollOutcome::Focused
        } else if now_ms >= self.deadline_ms {
            PollOutcome::TimedOut
        } else {
            PollOutcome::Pending
        }
    }
}

/// Where waiting for the recorded window to regain focus stands.
#[derive(Clone, Copy, Debug, PartialEq, Eq, Structural)]
pub enum TargetFocus {
    /// No window was recorded; settling for a fixed time is all that can be done.
    Settling,
    /// Polling the focused window; `raised` tells whether the target was
    /// already raised.
    Polling { poll: FocusPoll, raised: bool },
    /// The target was asked to be raised.
    Raising { target: u32 },
    /// The target has focus; settling before keys are sent.
    Confirming,
    /// The wait is over: focus arrived (`true`) or never did (`false`).
    Finished(bool),
}

/// What the caller reports back, with the clock reading when it was done.
#[derive(Clone, Copy, Debug, PartialEq, Eq, Structural)]
pub enum FocusEvent {
    /// The display server reports `current` as the focused window.
    Focus { current: Option<u32>, now_ms: u64 },
    /// The requested raise or sleep is done.
    Tick { now_ms: u64 },
}

/// What the caller is asked to do next.
#[derive(Clone, Copy, Debug, PartialEq, Eq, Structural)]
pub enum FocusAction {
    /// Raise the recorded window (if any), sleep this many milliseconds, report `Tick`.
    RaiseAndSleep(u64),
    /// Read the focused window and report `Focus`.
    ReadFocus,
    /// Sleep this many milliseconds, then read the focused window and report `Focus`.
    SleepThenReadFocus(u64),
    /// Raise the recorded window and report `Tick`.
    Raise,
    /// Sleep this many milliseconds and report `Tick`.
    Sleep(u64),
    /// Stop: whether keys may be sent.
    Finish(bool),
}

/// The transition of the focus wait: the whole state machine.
pub open spec fn spec_focus_step(state: TargetFocus, event: FocusEvent) -> (TargetFocus, FocusAction) {
    match (state, event) {
        (TargetFocus::Settling, FocusEvent::Tick { .. }) => (
            TargetFocus::Finished(true),
            FocusAction::Finish(true),
        ),
        (TargetFocus::Polling { poll, raised }, FocusEvent::Focus { current, now_ms }) => {
            match spec_poll(poll, current, now_ms) {
                PollOutcome::Focused => (
                    TargetFocus::Confirming,
                    FocusAction::Sleep(WAIT_AFTER_RAISED_MS),
                ),
                PollOutcome::Pending => (
                    TargetFocus::Polling { poll, raised },
                    FocusAction::SleepThenReadFocus(FOCUS_POLL_INTERVAL_MS),
                ),
                PollOutcome::TimedOut => if raised {
                    (TargetFocus::Finished(false), FocusAction::Finish(false))
                } else {
                    (TargetFocus::Raising { target: poll.target }, FocusAction::Raise)
                },
            }
        },
        (TargetFocus::Raising { target }, FocusEvent::Tick { now_ms }) => (
            TargetFocus::Polling {
                poll: FocusPoll { target, deadline_ms: spec_deadline(now_ms, WAIT_RAISED_MS) },
                raised: true,
            },
            FocusAction::ReadFocus,
        ),
        (TargetFocus::Confirming, FocusEvent::Tick { .. }) => (
            TargetFocus::Finished(true),
            FocusAction::Finish(true),
        ),
        _ => (TargetFocus::Finished(false), FocusAction::Finish(false)),
    }
}

impl TargetFocus {
    /// Begins waiting for the recorded window `target` at `now_ms`. Without a
    /// recorded window (the platform cannot report one, or the picker was
    /// opened from the tray) the window is raised blindly and a fixed settle
    /// time is the only guarantee that focus has moved on.
    pub fn start(target: Option<u32>, now_ms: u64) -> (r: (TargetFocus, FocusAction))
        ensures
            match target {
                None => r == (TargetFocus::Settling, FocusAction::RaiseAndSleep(BLIND_FOCUS_RETURN_MS)),
                Some(t) => r == (
                    TargetFocus::Polling {
                        poll: FocusPoll { target: t, deadline_ms: spec_deadline(now_ms, WAIT_BEFORE_RAISE_MS) },
                        raised: false,
                    },
                    FocusAction::ReadFocus,
                ),
            },
    {
        match target {
            None => (TargetFocus::Settling, FocusAction::RaiseAndSleep(BLIND_FOCUS_RETURN_MS)),
            Some(t) => (
                TargetFocus::Polling {
                    poll: FocusPoll::start(t, now_ms, WAIT_BEFORE_RAISE_MS),
                    raised: false,
                },
                FocusAction::ReadFocus,
            ),
        }
    }

    /// One step: the target gets a short time to regain focus, is raised once
    /// if it does not, and gets a longer time after that; when focus never
    /// arrives the wait ends with `false`, and no keys are to be sent, since
    /// pasting into an unknown window is worse than not pasting at all. An
    /// event that does not fit the state also ends it with `false`.
    pub fn step(self, event: FocusEvent) -> (r: (TargetFocus, FocusAction))
        ensures
            r == spec_focus_step(self, event),
    {
        match (self, event) {
            (TargetFocus::Settling, FocusEvent::Tick { .. }) => (
                TargetFocus::Finished(true),
                FocusAction::Finish(true),
            ),
            (TargetFocus::Polling { poll, raised }, FocusEvent::Focus { current, now_ms }) => {
                match poll.observe(current, now_ms) {
                    PollOutcome::Focused => (
                        TargetFocus::Confirming,
                        FocusAction::Sleep(WAIT_AFTER_RAISED_MS),
                    ),
                    PollOutcome::Pending => (
                        TargetFocus::Polling { poll, raised },
                        FocusAction::SleepThenReadFocus(FOCUS_POLL_INTERVAL_MS),
                    ),
                    PollOutcome::TimedOut => if raised {
                        (TargetFocus::Finished(false), FocusAction::Finish(false))
                    } else {
                        (TargetFocus::Raising { target: poll.target }, FocusAction::Raise)
                    },
                }
            },
            (TargetFocus::Raising { target }, FocusEvent::Tick { now_ms }) => (
                TargetFocus::Polling {
                    poll: FocusPoll::start(target, now_ms, WAIT_RAISED_MS),
                    raised: true,
                },
                FocusAction::ReadFocus,
            ),
            (TargetFocus::Confirming, FocusEvent::Tick { .. }) => (
                TargetFocus::Finished(true),
                FocusAction::Finish(true),
            ),
            _ => (TargetFocus::Finished(false), FocusAction::Finish(false)),
        }
    }
}

/// Waiting, until a deadline, for the user to release every modifier.
#[derive(Clone, Copy, Debug, PartialEq, Eq, Structural)]
pub struct ModifierWait {
    pub deadline_ms: u64,
}

/// The result of one look at the modifier keys.
#[derive(Clone, Copy, Debug, PartialEq, Eq, Structural)]
pub enum ModifierOutcome {
    /// No modifier is held.
    Released,
    /// A modifier is still held but the budget is spent: send anyway.
    TimedOut,
    /// Look again after a pause.
    Pending,
}

/// One look at the modifier keys: released wins over the deadline.
pub open spec fn spec_modifier_observe(wait: ModifierWait, held: bool, now_ms: u64) -> ModifierOutcome {
    if !held {
        ModifierOutcome::Released
    } else if now_ms >= wait.deadline_ms {
        ModifierOutcome::TimedOut
    } else {
        ModifierOutcome::Pending
    }
}

impl ModifierWait {
    /// Selection is usually driven by a global hotkey, so Ctrl or Super is
    /// often still down; injecting the chord on top of that produces a
    /// different shortcut in the target window, or types the wrong character.
    /// Starts waiting at `now_ms` for the release budget.
    pub fn start(now_ms: u64) -> (wait: Self)
        ensures
            wait.deadline_ms == spec_deadline(now_ms, MODIFIER_RELEASE_TIMEOUT_MS),
    {
        ModifierWait { deadline_ms: deadline(now_ms, MODIFIER_RELEASE_TIMEOUT_MS) }
    }

    /// Judges one reading of the modifier keys made at `now_ms`.
    pub fn observe(&self, held: bool, now_ms: u64) -> (outcome: ModifierOutcome)
        ensures
            outcome == spec_modifier_observe(*self, held, now_ms),
    {
        if !held {
            ModifierOutcome::Released
        } else if now_ms >= self.deadline_ms {
            ModifierOutcome::TimedOut
        } else {
            ModifierOutcome::Pending
        }
    }
}

/// The waits are bounded: once the clock has reached a deadline, neither a
/// focus poll nor the modifier wait asks to look again.
pub proof fn lemma_waits_end_at_deadline(
    poll: FocusPoll,
    current: Option<u32>,
    wait: ModifierWait,
    held: bool,
    now_ms: u64,
)
    ensures
        now_ms >= poll.deadline_ms ==> spec_poll(poll, current, now_ms) != PollOutcome::Pending,
        now_ms >= wait.deadline_ms ==> spec_modifier_observe(wait, held, now_ms)
            != ModifierOutcome::Pending,
{
}

/// The focus wait reports success only after a settle: from the blind settle
/// when no window was recorded, or from confirming after the target was seen
/// focused; and confirming is only entered when the focused window reported
/// is the target.
pub proof fn lemma_focus_success_needs_target_focus(state: TargetFocus, event: FocusEvent)
    ensures
        spec_focus_step(state, event).1 == FocusAction::Finish(true) ==> (state is Settling
            || state is Confirming),
        spec_focus_step(state, event).0 is Confirming ==> (state matches TargetFocus::Polling {
            poll,
            ..
        } && event matches FocusEvent::Focus { current, .. } && current == Some(poll.target)),
{
}

/// The target is raised at most once: only a first poll that timed out asks
/// for a raise, every poll after a raise is marked raised, and a raised poll
/// that times out gives up.
pub proof fn lemma_raise_at_most_once(state: TargetFocus, event: FocusEvent)
    ensures
        spec_focus_step(state, event).1 is Raise ==> state matches TargetFocus::Polling {
            raised: false,
            ..
        },
        state matches TargetFocus::Polling { raised: true, .. } ==> !(spec_focus_step(
            state,
            event,
        ).0 matches TargetFocus::Polling { raised: false, .. }) && !(spec_focus_step(
            state,
            event,
        ).1 is Raise),
        state matches TargetFocus::Raising { .. } ==> !(spec_focus_step(state, event).0 matches TargetFocus::Polling {
            raised: false,
            ..
        }),
{
}

/// The window a focus wait is waiting for, while it is polling or raising.
pub open spec fn spec_focus_target(state: TargetFocus) -> Option<u32> {
    match state {
        TargetFocus::Polling { poll, .. } => Some(poll.target),
        TargetFocus::Raising { target } => Some(target),
        _ => None,
    }
}

/// The actions a sequence of reports leads to, one per report, from `state` on.
pub open spec fn spec_focus_trace(state: TargetFocus, events: Seq<FocusEvent>) -> Seq<FocusAction>
    decreases events.len(),
{
    if events.len() == 0 {
        Seq::empty()
    } else {
        let (next, action) = spec_focus_step(state, events[0]);
        seq![action] + spec_focus_trace(next, events.drop_first())
    }
}

/// The report says that `target` has focus.
pub open spec fn spec_reports_focus(event: FocusEvent, target: u32) -> bool {
    event matches FocusEvent::Focus { current, .. } && current == Some(target)
}

proof fn lemma_focus_trace_len(state: TargetFocus, events: Seq<FocusEvent>)
    ensures
        spec_focus_trace(state, events).len() == events.len(),
    decreases events.len(),
{
    if events.len() > 0 {
        let (next, action) = spec_focus_step(state, events[0]);
        lemma_focus_trace_len(next, events.drop_first());
    }
}

proof fn lemma_focus_trace_success(state: TargetFocus, events: Seq<FocusEvent>, k: int)
    requires
        0 <= k < events.len(),
        spec_focus_trace(state, events)[k] == FocusAction::Finish(true),
    ensures
        state is Settling || state is Confirming || (spec_focus_target(state) matches Some(t)
            && exists|j: int| 0 <= j < k && spec_reports_focus(#[trigger] events[j], t)),
    decreases events.len(),
{
    let (next, action) = spec_focus_step(state, events[0]);
    let rest = events.drop_first();
    lemma_focus_trace_len(next, rest);
    lemma_focus_success_needs_target_focus(state, events[0]);
    if k > 0 {
        assert(spec_focus_trace(state, events)[k] == spec_focus_trace(next, rest)[k - 1]);
        lemma_focus_trace_success(next, rest, k - 1);
        if next is Confirming {
            assert(spec_reports_focus(events[0], spec_focus_target(state)->0));
        } else if next is Settling {
            assert(false);
        } else {
            let t = spec_focus_target(next)->0;
            let j = choose|j: int| 0 <= j < k - 1 && spec_reports_focus(#[trigger] rest[j], t);
            assert(events[j + 1] == rest[j]);
            assert(spec_focus_target(state) == Some(t));
        }
    }
}

/// Over any sequence of reports, a wait that began with a recorded window
/// reports success only after the display server reported that very window
/// as focused.
pub proof fn lemma_focus_run(target: u32, now_ms: u64, events: Seq<FocusEvent>, k: int)
    requires
        0 <= k < events.len(),
        spec_focus_trace(
            TargetFocus::Polling {
                poll: FocusPoll { target, deadline_ms: spec_deadline(now_ms, WAIT_BEFORE_RAISE_MS) },
                raised: false,
            },
            events,
        )[k] == FocusAction::Finish(true),
    ensures
        exists|j: int| 0 <= j < k && spec_reports_focus(#[trigger] events[j], target),
{
    lemma_focus_trace_success(
        TargetFocus::Polling {
            poll: FocusPoll { target, deadline_ms: spec_deadline(now_ms, WAIT_BEFORE_RAISE_MS) },
            raised: false,
        },
        events,
        k,
    );
}

/// One look at the focused window, in terms of what was seen: a report that
/// names the target ends the poll in a settle before keys are sent, whatever
/// the clock says; a report that does not name the target, made before the
/// deadline, keeps the very same poll, raised or not, and looks again after
/// the poll interval; one made at or after the deadline raises the target if
/// it was not raised yet, and gives up otherwise.
pub proof fn lemma_poll_report(poll: FocusPoll, raised: bool, current: Option<u32>, now_ms: u64)
    ensures
        current == Some(poll.target) ==> spec_focus_step(
            TargetFocus::Polling { poll, raised },
            FocusEvent::Focus { current, now_ms },
        ) == (TargetFocus::Confirming, FocusAction::Sleep(50)),
        current != Some(poll.target) && now_ms < poll.deadline_ms ==> spec_focus_step(
            TargetFocus::Polling { poll, raised },
            FocusEvent::Focus { current, now_ms },
        ) == (TargetFocus::Polling { poll, raised }, FocusAction::SleepThenReadFocus(10)),
        current != Some(poll.target) && now_ms >= poll.deadline_ms && !raised ==> spec_focus_step(
            TargetFocus::Polling { poll, raised },
            FocusEvent::Focus { current, now_ms },
        ) == (TargetFocus::Raising { target: poll.target }, FocusAction::Raise),
        current != Some(poll.target) && now_ms >= poll.deadline_ms && raised ==> spec_focus_step(
            TargetFocus::Polling { poll, raised },
            FocusEvent::Focus { current, now_ms },
        ) == (TargetFocus::Finished(false), FocusAction::Finish(false)),
{
}

/// The settles end in success, and a raise is followed by a second poll of
/// the same window, marked raised, whose deadline is the raised wait after
/// the clock reading that reported the raise done.
pub proof fn lemma_settle_and_raise(target: u32, now_ms: u64)
    ensures
        spec_focus_step(TargetFocus::Settling, FocusEvent::Tick { now_ms }) == (
            TargetFocus::Finished(true),
            FocusAction::Finish(true),
        ),
        spec_focus_step(TargetFocus::Confirming, FocusEvent::Tick { now_ms }) == (
            TargetFocus::Finished(true),
            FocusAction::Finish(true),
        ),
        now_ms + 150 <= u64::MAX ==> spec_focus_step(
            TargetFocus::Raising { target },
            FocusEvent::Tick { now_ms },
        ) == (
            TargetFocus::Polling {
                poll: FocusPoll { target, deadline_ms: (now_ms + 150) as u64 },
                raised: true,
            },
            FocusAction::ReadFocus,
        ),
{
}

/// A report that does not name `target` and is made before `deadline_ms`.
pub open spec fn spec_pending_report(event: FocusEvent, target: u32, deadline_ms: u64) -> bool {
    event matches FocusEvent::Focus { current, now_ms } && current != Some(target) && now_ms
        < deadline_ms
}

proof fn lemma_first_phase_raises_from(poll: FocusPoll, events: Seq<FocusEvent>, n: int)
    requires
        0 <= n < events.len(),
        forall|j: int| 0 <= j < n ==> spec_pending_report(#[trigger] events[j], poll.target, poll.deadline_ms),
        events[n] matches FocusEvent::Focus { current, now_ms } && current != Some(poll.target)
            && now_ms >= poll.deadline_ms,
    ensures
        spec_focus_trace(TargetFocus::Polling { poll, raised: false }, events)[n] == FocusAction::Raise,
    decreases n,
{
    let state = TargetFocus::Polling { poll, raised: false };
    let (next, action) = spec_focus_step(state, events[0]);
    let rest = events.drop_first();
    lemma_focus_trace_len(next, rest);
    assert(spec_focus_trace(state, events) == seq![action] + spec_focus_trace(next, rest));
    if n > 0 {
        assert(spec_pending_report(events[0], poll.target, poll.deadline_ms));
        assert(next == state);
        assert forall|j: int| 0 <= j < n - 1 implies spec_pending_report(
            #[trigger] rest[j],
            poll.target,
            poll.deadline_ms,
        ) by {
            assert(rest[j] == events[j + 1]);
        }
        lemma_first_phase_raises_from(poll, rest, n - 1);
        assert(spec_focus_trace(state, events)[n] == spec_focus_trace(next, rest)[n - 1]);
    } else {
        assert(spec_focus_trace(state, events)[0] == action);
    }
}

/// Whatever reports come while the first, short phase is still pending, the
/// first report that finds the target unfocused at or after that phase's
/// deadline asks for the target to be raised: a wait that began with a
/// recorded window never gives up before raising it.
pub proof fn lemma_first_phase_raises(target: u32, now_ms: u64, events: Seq<FocusEvent>, n: int)
    requires
        0 <= n < events.len(),
        forall|j: int|
            0 <= j < n ==> spec_pending_report(
                #[trigger] events[j],
                target,
                spec_deadline(now_ms, WAIT_BEFORE_RAISE_MS),
            ),
        events[n] matches FocusEvent::Focus { current, now_ms: t } && current != Some(target) && t
            >= spec_deadline(now_ms, WAIT_BEFORE_RAISE_MS),
    ensures
        spec_focus_trace(
            TargetFocus::Polling {
                poll: FocusPoll { target, deadline_ms: spec_deadline(now_ms, WAIT_BEFORE_RAISE_MS) },
                raised: false,
            },
            events,
        )[n] == FocusAction::Raise,
{
    lemma_first_phase_raises_from(
        FocusPoll { target, deadline_ms: spec_deadline(now_ms, WAIT_BEFORE_RAISE_MS) },
        events,
        n,
    );
}

/// Deadlines are the start time plus the wait, capped at the largest
/// timestamp; a modifier wait ends as soon as no modifier is held, waits on
/// while one is held before the deadline, and gives up at the deadline.
pub proof fn lemma_deadline_and_modifiers(now_ms: u64, timeout_ms: u64, wait: ModifierWait, held: bool, t: u64)
    ensures
        now_ms + timeout_ms <= u64::MAX ==> spec_deadline(now_ms, timeout_ms) == now_ms + timeout_ms,
        now_ms + timeout_ms > u64::MAX ==> spec_deadline(now_ms, timeout_ms) == u64::MAX,
        !held ==> spec_modifier_observe(wait, held, t) == ModifierOutcome::Released,
        held && t < wait.deadline_ms ==> spec_modifier_observe(wait, held, t) == ModifierOutcome::Pending,
        held && t >= wait.deadline_ms ==> spec_modifier_observe(wait, held, t) == ModifierOutcome::TimedOut,
        now_ms + 2000 <= u64::MAX ==> spec_deadline(now_ms, MODIFIER_RELEASE_TIMEOUT_MS) == now_ms + 2000,
        now_ms + 20 <= u64::MAX ==> spec_deadline(now_ms, WAIT_BEFORE_RAISE_MS) == now_ms + 20,
{
}

} // verus!
