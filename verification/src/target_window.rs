//! Remembers which window to paste into.
//!
//! By the time the user picks an entry, Clippy owns the focus, so the window
//! that should receive the paste has to be recorded before Clippy is shown.
//! The display server is queried by the caller; here stand the rules for what
//! is recorded and which window is raised.
use vstd::prelude::*;

verus! {

/// The recorded target window, if any.
pub struct TargetWindowSlot {
    window: Option<u32>,
}

impl View for TargetWindowSlot {
    type V = Option<u32>;

    closed spec fn view(&self) -> Option<u32> {
        self.window
    }
}

impl TargetWindowSlot {
    /// A slot with no window recorded.
    pub fn new() -> (slot: Self)
        ensures
            slot@ is None,
    {
        TargetWindowSlot { window: None }
    }
}

/// What the slot holds after recording `window`: an observed window replaces
/// the old one, and no observation keeps it.
pub open spec fn spec_capture(previous: Option<u32>, window: Option<u32>) -> Option<u32> {
    if window is Some {
        window
    } else {
        previous
    }
}

/// The window the display server reports as focused, as far as it may be a
/// paste target: none when nothing is active (window id 0 or no report), and
/// none when the active window belongs to this process (its `_NET_WM_PID` is
/// `own_pid`), otherwise opening the picker would overwrite the target with
/// the picker itself.
pub open spec fn spec_current_window(active: Option<u32>, active_pid: Option<u32>, own_pid: u32) -> Option<u32> {
    match active {
        Some(w) => if w == 0 || active_pid == Some(own_pid) {
            None
        } else {
            Some(w)
        },
        None => None,
    }
}

/// Records the focused window, unless there is none (the focused window is one
/// of Clippy's own or cannot be queried).
pub fn capture_target_window(slot: &mut TargetWindowSlot, window: Option<u32>)
    ensures
        final(slot)@ == spec_capture(old(slot)@, window),
{
    if window.is_none() {
        return;
    }
    slot.window = window;
}

/// The recorded window.
pub fn get_target_window(slot: &TargetWindowSlot) -> (window: Option<u32>)
    ensures
        window == slot@,
{
    slot.window
}

/// The window to raise and ask the server to focus: the recorded one; `None`
/// means there is nothing to raise.
pub fn raise_target_window(slot: &TargetWindowSlot) -> (window: Option<u32>)
    ensures
        window == slot@,
{
    get_target_window(slot)
}

/// Whether a window whose `_NET_WM_PID` reads `window_pid` belongs to the
/// process `own_pid`; a window whose pid cannot be read is not ours.
pub fn is_own_window(window_pid: Option<u32>, own_pid: u32) -> (own: bool)
    ensures
        own == (window_pid == Some(own_pid)),
{
    match window_pid {
        Some(pid) => pid == own_pid,
        None => false,
    }
}

/// The window the display server currently considers focused, from the
/// server's `_NET_ACTIVE_WINDOW` reply `active` and that window's
/// `_NET_WM_PID` reply `active_pid`. Where the server cannot be queried (no
/// X11, or Wayland, which exposes no focused window) `active` is `None`.
pub fn current_window(active: Option<u32>, active_pid: Option<u32>, own_pid: u32) -> (window:
    Option<u32>)
    ensures
        window == spec_current_window(active, active_pid, own_pid),
{
    let active = match active {
        Some(w) => w,
        None => return None,
    };
    if active == 0 {
        return None;
    }
    if is_own_window(active_pid, own_pid) {
        return None;
    }
    Some(active)
}

/// Recording reads back: after a window is recorded the slot holds it, and
/// recording nothing leaves the slot as it was.
pub proof fn lemma_capture_then_get(previous: Option<u32>, window: u32)
    ensures
        spec_capture(previous, Some(window)) == Some(window),
        spec_capture(previous, None) == previous,
{
}

/// Clippy never records one of its own windows: capturing what is observed
/// while one of its windows is active leaves the slot unchanged.
pub proof fn lemma_own_window_never_recorded(previous: Option<u32>, active: Option<u32>, own_pid: u32)
    ensures
        spec_capture(previous, spec_current_window(active, Some(own_pid), own_pid)) == previous,
{
}

/// A recorded window is never the null window 0.
pub proof fn lemma_recorded_window_nonzero(
    previous: Option<u32>,
    active: Option<u32>,
    active_pid: Option<u32>,
    own_pid: u32,
)
    requires
        previous != Some(0u32),
    ensures
        spec_capture(previous, spec_current_window(active, active_pid, own_pid)) != Some(0u32),
{
}

/// One call on the target record: a capture made while the display server
/// reported `active` as focused, with that window's pid `active_pid`; or a
/// read, which leaves the record as it is.
pub enum TargetCall {
    Capture { active: Option<u32>, active_pid: Option<u32> },
    Read,
}

/// The record after a sequence of calls, from `previous` on, for a process
/// whose pid is `own_pid`.
pub open spec fn spec_after_calls(previous: Option<u32>, calls: Seq<TargetCall>, own_pid: u32) -> Option<u32>
    decreases calls.len(),
{
    if calls.len() == 0 {
        previous
    } else {
        let before = spec_after_calls(previous, calls.drop_last(), own_pid);
        match calls.last() {
            TargetCall::Capture { active, active_pid } => spec_capture(
                before,
                spec_current_window(active, active_pid, own_pid),
            ),
            TargetCall::Read => before,
        }
    }
}

/// The call at `i` is a capture that saw window `w`, which is not window 0
/// and was not reported with this process's pid.
pub open spec fn spec_captured_at(calls: Seq<TargetCall>, i: int, w: u32, own_pid: u32) -> bool {
    calls[i] matches TargetCall::Capture { active, active_pid } && active == Some(w) && w != 0
        && active_pid != Some(own_pid)
}

/// The call at `i` is a capture that saw some window it could record.
pub open spec fn spec_records_at(calls: Seq<TargetCall>, i: int, own_pid: u32) -> bool {
    calls[i] matches TargetCall::Capture { active, active_pid } && spec_current_window(
        active,
        active_pid,
        own_pid,
    ) is Some
}

/// Over any sequence of captures and reads from an empty record, the record
/// holds nothing until a capture sees a window it can record; from then on it
/// holds the window of the last such capture, which is never window 0 and was
/// never reported with this process's pid. Reads never change it.
pub proof fn lemma_record_over_calls(calls: Seq<TargetCall>, own_pid: u32)
    ensures
        (spec_after_calls(None, calls, own_pid) is None) <==> (forall|i: int|
            0 <= i < calls.len() ==> !spec_records_at(calls, i, own_pid)),
        spec_after_calls(None, calls, own_pid) matches Some(w) ==> exists|i: int|
            0 <= i < calls.len() && spec_captured_at(calls, i, w, own_pid) && (forall|k: int|
                i < k < calls.len() ==> !spec_records_at(calls, k, own_pid)),
        forall|k: int|
            0 <= k < calls.len() && calls[k] is Read ==> spec_after_calls(None, calls.take(k + 1), own_pid)
                == spec_after_calls(None, calls.take(k), own_pid),
    decreases calls.len(),
{
    if calls.len() > 0 {
        let init = calls.drop_last();
        let n = calls.len() - 1;
        lemma_record_over_calls(init, own_pid);
        assert forall|i: int| 0 <= i < n implies (spec_records_at(calls, i, own_pid) == spec_records_at(init, i, own_pid)) by {
            assert(calls[i] == init[i]);
        }
        if spec_records_at(calls, n, own_pid) {
            let w = spec_after_calls(None, calls, own_pid)->0;
            assert(spec_captured_at(calls, n, w, own_pid));
        } else {
            assert(spec_after_calls(None, calls, own_pid) == spec_after_calls(None, init, own_pid));
            if let Some(w) = spec_after_calls(None, calls, own_pid) {
                let i = choose|i: int|
                    0 <= i < init.len() && spec_captured_at(init, i, w, own_pid) && (forall|k: int|
                        i < k < init.len() ==> !spec_records_at(init, k, own_pid));
                assert(calls[i] == init[i]);
                assert(spec_captured_at(calls, i, w, own_pid));
            }
        }
        assert forall|k: int|
            0 <= k < calls.len() && calls[k] is Read implies spec_after_calls(None, calls.take(k + 1), own_pid)
                == spec_after_calls(None, calls.take(k), own_pid) by {
            assert(calls.take(k + 1).drop_last() =~= calls.take(k));
            assert(calls.take(k + 1).last() == calls[k]);
        }
    } else {
        assert forall|k: int|
            0 <= k < calls.len() && calls[k] is Read implies spec_after_calls(None, calls.take(k + 1), own_pid)
                == spec_after_calls(None, calls.take(k), own_pid) by {}
    }
}

/// Only three reports are filtered out: no active window, window 0, and a
/// window whose pid is this process's own. Any other window is recorded as it
/// was reported, whatever its pid (or when its pid cannot be read).
pub proof fn lemma_current_window_filters_only_own(
    w: u32,
    active_pid: Option<u32>,
    own_pid: u32,
)
    ensures
        w != 0 && active_pid != Some(own_pid) ==> spec_current_window(Some(w), active_pid, own_pid)
            == Some(w),
        spec_current_window(None, active_pid, own_pid) is None,
        spec_current_window(Some(0), active_pid, own_pid) is None,
        spec_current_window(Some(w), Some(own_pid), own_pid) is None,
        spec_current_window(Some(w), active_pid, own_pid) is Some ==> spec_current_window(
            Some(w),
            active_pid,
            own_pid,
        ) == Some(w),
{
}

} // verus!
