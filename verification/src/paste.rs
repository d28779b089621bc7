//! The paste-on-select sequence and the paste chord. The caller loads
//! settings and entries, hides the picker, waits for focus and modifiers (see
//! the focus module), and presses keys; the decisions about what comes next
//! stand here.
use vstd::prelude::*;
use crate::enums::{PasteOnSelect, spec_from_setting};

verus! {

/// Where paste-on-select stands.
pub enum PasteSession {
    /// Type mode: the entry's text has been asked for.
    ResolvingText,
    /// The picker is being hidden and the target window awaited; `text` is
    /// the text to type, or `None` to send the paste chord.
    Focusing { text: Option<String> },
    /// The target has focus; waiting for the hotkey's modifiers to be released.
    ReleasingModifiers { text: Option<String> },
    /// Nothing more to do.
    Finished,
}

/// What the caller reports back.
pub enum PasteEvent {
    /// The entry's text (`None`: it has none, or it could not be loaded).
    TextResolved(Option<String>),
    /// Whether the target window took focus.
    FocusAwaited(bool),
    /// The modifiers were released, or their budget ran out.
    ModifiersAwaited,
}

/// What the caller is asked to do next.
pub enum PasteAction {
    /// Stop.
    Finish,
    /// Fetch the selected entry's text and report `TextResolved`.
    ResolveText,
    /// Hide the picker (leaving it up means pasting into Clippy itself), wait
    /// for the target window to take focus, and report `FocusAwaited`.
    HideAndAwaitFocus,
    /// Wait for the modifiers to be released and report `ModifiersAwaited`.
    AwaitModifierRelease,
    /// Type this text into the focused window, then stop.
    TypeText(String),
    /// Send the paste chord to the focused window, then stop.
    SendPasteChord,
}

/// How paste-on-select begins for a stored setting.
pub open spec fn spec_paste_start(mode: PasteOnSelect) -> (PasteSession, PasteAction) {
    match mode {
        PasteOnSelect::Off => (PasteSession::Finished, PasteAction::Finish),
        PasteOnSelect::Type => (PasteSession::ResolvingText, PasteAction::ResolveText),
        PasteOnSelect::Paste => (
            PasteSession::Focusing { text: None },
            PasteAction::HideAndAwaitFocus,
        ),
    }
}

/// The transition of paste-on-select: the whole state machine.
pub open spec fn spec_paste_step(state: PasteSession, event: PasteEvent) -> (PasteSession, PasteAction) {
    match (state, event) {
        (PasteSession::ResolvingText, PasteEvent::TextResolved(Some(t))) => (
            PasteSession::Focusing { text: Some(t) },
            PasteAction::HideAndAwaitFocus,
        ),
        (PasteSession::Focusing { text }, PasteEvent::FocusAwaited(true)) => (
            PasteSession::ReleasingModifiers { text },
            PasteAction::AwaitModifierRelease,
        ),
        (PasteSession::ReleasingModifiers { text }, PasteEvent::ModifiersAwaited) => (
            PasteSession::Finished,
            match text {
                Some(t) => PasteAction::TypeText(t),
                None => PasteAction::SendPasteChord,
            },
        ),
        _ => (PasteSession::Finished, PasteAction::Finish),
    }
}

impl PasteSession {
    /// Begins paste-on-select for the stored setting. Does nothing unless the
    /// user opted in. In type mode the text is resolved before the picker is
    /// hidden, so an image or file entry leaves the window alone instead of
    /// closing it for nothing.
    pub fn start(setting: &str) -> (r: (PasteSession, PasteAction))
        ensures
            r == spec_paste_start(spec_from_setting(setting@)),
    {
        match PasteOnSelect::from_setting(setting) {
            PasteOnSelect::Off => (PasteSession::Finished, PasteAction::Finish),
            PasteOnSelect::Type => (PasteSession::ResolvingText, PasteAction::ResolveText),
            PasteOnSelect::Paste => (
                PasteSession::Focusing { text: None },
                PasteAction::HideAndAwaitFocus,
            ),
        }
    }

    /// One step: without text to type, or without focus, the sequence stops
    /// and no keys are sent; once the modifiers are out of the way the text is
    /// typed, or the paste chord sent. An event that does not fit the state
    /// stops the sequence.
    pub fn step(self, event: PasteEvent) -> (r: (PasteSession, PasteAction))
        ensures
            r == spec_paste_step(self, event),
    {
        match (self, event) {
            (PasteSession::ResolvingText, PasteEvent::TextResolved(Some(t))) => (
                PasteSession::Focusing { text: Some(t) },
                PasteAction::HideAndAwaitFocus,
            ),
            (PasteSession::Focusing { text }, PasteEvent::FocusAwaited(true)) => (
                PasteSession::ReleasingModifiers { text },
                PasteAction::AwaitModifierRelease,
            ),
            (PasteSession::ReleasingModifiers { text }, PasteEvent::ModifiersAwaited) => (
                PasteSession::Finished,
                match text {
                    Some(t) => PasteAction::TypeText(t),
                    None => PasteAction::SendPasteChord,
                },
            ),
            _ => (PasteSession::Finished, PasteAction::Finish),
        }
    }
}

/// The text an action types, if it types any.
pub open spec fn spec_typed(action: PasteAction) -> Option<String> {
    match action {
        PasteAction::TypeText(t) => Some(t),
        _ => None,
    }
}

/// Whether an action sends keystrokes.
pub open spec fn spec_sends_keys(action: PasteAction) -> bool {
    action is TypeText || action is SendPasteChord
}

/// The state agrees with the mode the sequence started in: in paste mode no
/// text is ever carried, in type mode text is carried once it is resolved.
pub open spec fn spec_mode_consistent(mode: PasteOnSelect, state: PasteSession) -> bool {
    match state {
        PasteSession::ResolvingText => mode == PasteOnSelect::Type,
        PasteSession::Focusing { text } => (mode == PasteOnSelect::Paste && text is None) || (mode
            == PasteOnSelect::Type && text is Some),
        PasteSession::ReleasingModifiers { text } => (mode == PasteOnSelect::Paste && text is None)
            || (mode == PasteOnSelect::Type && text is Some),
        PasteSession::Finished => true,
    }
}

/// With paste-on-select off, nothing is hidden and no key is sent: the
/// sequence stops at once.
pub proof fn lemma_off_does_nothing(setting: Seq<char>)
    requires
        spec_from_setting(setting) == PasteOnSelect::Off,
    ensures
        spec_paste_start(spec_from_setting(setting)).1 is Finish,
        spec_paste_start(spec_from_setting(setting)).0 is Finished,
{
}

/// Keys are only sent after the target window took focus: a key action only
/// follows the modifier wait, and the modifier wait is only entered when focus
/// was awaited successfully.
pub proof fn lemma_keys_only_after_focus(mode: PasteOnSelect, state: PasteSession, event: PasteEvent)
    ensures
        spec_sends_keys(spec_paste_step(state, event).1) ==> (state is ReleasingModifiers
            && event is ModifiersAwaited),
        spec_paste_step(state, event).0 is ReleasingModifiers ==> (state is Focusing && event
            == PasteEvent::FocusAwaited(true)),
        !spec_sends_keys(spec_paste_start(mode).1),
{
}

/// The picker is hidden only when there is something to paste: at the start
/// of paste mode, or in type mode once text was resolved, which is then the
/// text carried on; and the text typed is the text carried.
pub proof fn lemma_hide_only_with_content(mode: PasteOnSelect, state: PasteSession, event: PasteEvent)
    ensures
        (spec_paste_start(mode).1 is HideAndAwaitFocus) ==> (mode == PasteOnSelect::Paste),
        (spec_paste_step(state, event).1 is HideAndAwaitFocus) ==> ((state is ResolvingText) && (
        event matches PasteEvent::TextResolved(Some(t)) && spec_paste_step(state, event).0 == (
        PasteSession::Focusing { text: Some(t) }))),
        (spec_typed(spec_paste_step(state, event).1) is Some) ==> (state == (
        PasteSession::ReleasingModifiers { text: spec_typed(spec_paste_step(state, event).1) })),
{
}

/// Every step keeps the state consistent with the starting mode, so paste mode
/// only ever sends the paste chord and type mode only ever types text.
pub proof fn lemma_mode_kept(mode: PasteOnSelect, state: PasteSession, event: PasteEvent)
    requires
        spec_mode_consistent(mode, state),
    ensures
        spec_mode_consistent(mode, spec_paste_start(mode).0),
        spec_mode_consistent(mode, spec_paste_step(state, event).0),
        (spec_paste_step(state, event).1 is TypeText) ==> (mode == PasteOnSelect::Type),
        (spec_paste_step(state, event).1 is SendPasteChord) ==> (mode == PasteOnSelect::Paste),
{
}

/// The actions a sequence of reports leads to, one per report, from `state` on.
pub open spec fn spec_paste_trace(state: PasteSession, events: Seq<PasteEvent>) -> Seq<PasteAction>
    decreases events.len(),
{
    if events.len() == 0 {
        Seq::empty()
    } else {
        let (next, action) = spec_paste_step(state, events[0]);
        seq![action] + spec_paste_trace(next, events.drop_first())
    }
}

proof fn lemma_trace_len(state: PasteSession, events: Seq<PasteEvent>)
    ensures
        spec_paste_trace(state, events).len() == events.len(),
    decreases events.len(),
{
    if events.len() > 0 {
        let (next, action) = spec_paste_step(state, events[0]);
        lemma_trace_len(next, events.drop_first());
    }
}

proof fn lemma_finished_trace_quiet(events: Seq<PasteEvent>, k: int)
    requires
        0 <= k < events.len(),
    ensures
        spec_paste_trace(PasteSession::Finished, events)[k] is Finish,
    decreases events.len(),
{
    lemma_trace_len(PasteSession::Finished, events);
    if k > 0 {
        lemma_finished_trace_quiet(events.drop_first(), k - 1);
        lemma_trace_len(PasteSession::Finished, events.drop_first());
    }
}

proof fn lemma_trace_keys_follow_focus(state: PasteSession, events: Seq<PasteEvent>, k: int)
    requires
        0 <= k < events.len(),
        spec_sends_keys(spec_paste_trace(state, events)[k]),
    ensures
        state is ReleasingModifiers || exists|j: int|
            0 <= j < k && events[j] == PasteEvent::FocusAwaited(true),
        forall|m: int| k < m < events.len() ==> !spec_sends_keys(#[trigger] spec_paste_trace(state, events)[m]),
    decreases events.len(),
{
    let (next, action) = spec_paste_step(state, events[0]);
    let rest = events.drop_first();
    lemma_trace_len(next, rest);
    lemma_keys_only_after_focus(PasteOnSelect::Off, state, events[0]);
    if k == 0 {
        assert(spec_paste_trace(state, events)[0] == action);
        assert(next is Finished);
        assert forall|m: int| k < m < events.len() implies !spec_sends_keys(
            #[trigger] spec_paste_trace(state, events)[m],
        ) by {
            lemma_finished_trace_quiet(rest, m - 1);
            assert(spec_paste_trace(state, events)[m] == spec_paste_trace(next, rest)[m - 1]);
        }
    } else {
        assert(spec_paste_trace(state, events)[k] == spec_paste_trace(next, rest)[k - 1]);
        lemma_trace_keys_follow_focus(next, rest, k - 1);
        if next is ReleasingModifiers {
            assert(events[0] == PasteEvent::FocusAwaited(true));
        } else {
            let j = choose|j: int| 0 <= j < k - 1 && rest[j] == PasteEvent::FocusAwaited(true);
            assert(events[j + 1] == rest[j]);
        }
        assert forall|m: int| k < m < events.len() implies !spec_sends_keys(
            #[trigger] spec_paste_trace(state, events)[m],
        ) by {
            assert(spec_paste_trace(state, events)[m] == spec_paste_trace(next, rest)[m - 1]);
        }
    }
}

/// Over any sequence of reports after any start, keys are sent at most once,
/// and only after the target window was reported focused.
pub proof fn lemma_paste_run(setting: Seq<char>, events: Seq<PasteEvent>, k: int)
    requires
        0 <= k < events.len(),
        spec_sends_keys(
            spec_paste_trace(spec_paste_start(spec_from_setting(setting)).0, events)[k],
        ),
    ensures
        exists|j: int| 0 <= j < k && events[j] == PasteEvent::FocusAwaited(true),
        forall|m: int|
            k < m < events.len() ==> !spec_sends_keys(
                #[trigger] spec_paste_trace(spec_paste_start(spec_from_setting(setting)).0, events)[m],
            ),
{
    lemma_trace_keys_follow_focus(spec_paste_start(spec_from_setting(setting)).0, events, k);
}

/// The platform the paste chord is sent on.
#[derive(Clone, Copy, Debug, PartialEq, Eq, Structural)]
pub enum Platform {
    MacOs,
    Linux,
    Other,
}

/// The modifier of the paste chord.
#[derive(Clone, Copy, Debug, PartialEq, Eq, Structural)]
pub enum ChordModifier {
    Control,
    Meta,
}

/// The paste chord: Cmd+V on macOS, Ctrl+V elsewhere. Shift+Insert would also
/// cover terminals, but on X11 most toolkits serve it from the PRIMARY
/// selection rather than CLIPBOARD, and Clippy only owns CLIPBOARD.
pub open spec fn spec_chord_modifier(platform: Platform) -> ChordModifier {
    if platform == Platform::MacOs {
        ChordModifier::Meta
    } else {
        ChordModifier::Control
    }
}

/// How long the modifier is held before the key is clicked: some toolkits drop
/// a chord that is pressed and released in the same frame.
pub open spec fn spec_key_hold_ms(platform: Platform) -> u64 {
    if platform == Platform::MacOs {
        100
    } else {
        50
    }
}

/// The modifier of the paste chord on `platform`.
pub fn chord_modifier(platform: Platform) -> (m: ChordModifier)
    ensures
        m == spec_chord_modifier(platform),
{
    match platform {
        Platform::MacOs => ChordModifier::Meta,
        _ => ChordModifier::Control,
    }
}

/// How long the modifier is held on `platform`, in milliseconds.
pub fn key_hold_ms(platform: Platform) -> (ms: u64)
    ensures
        ms == spec_key_hold_ms(platform),
{
    match platform {
        Platform::MacOs => 100,
        _ => 50,
    }
}

/// The key clicked while the modifier is held.
pub const PASTE_KEY: char = 'v';

/// Where sending the paste chord stands.
#[derive(Clone, Copy, Debug, PartialEq, Eq, Structural)]
pub enum ChordSession {
    /// Connecting to the input system.
    Connecting { platform: Platform },
    /// Pressing the modifier.
    Pressing { platform: Platform },
    /// Holding the modifier down.
    Holding { platform: Platform },
    /// Clicking the key.
    Clicking { platform: Platform },
    /// Releasing the modifier.
    Releasing,
    /// Done.
    Finished,
}

/// What the caller is asked to do next; each is reported back with whether
/// it succeeded.
#[derive(Clone, Copy, Debug, PartialEq, Eq, Structural)]
pub enum ChordAction {
    /// Open a connection to the input system.
    Connect,
    /// Press the modifier.
    PressModifier(ChordModifier),
    /// Sleep this many milliseconds.
    Hold(u64),
    /// Click this key.
    ClickKey(char),
    /// Release the modifier.
    ReleaseModifier(ChordModifier),
    /// The input system cannot be reached: run the command-line fallback, then stop.
    RunFallback,
    /// Stop.
    Finish,
}

/// What a failure before the modifier is down leads to: the command-line
/// fallback on Linux, nothing elsewhere.
pub open spec fn spec_chord_failure(platform: Platform) -> (ChordSession, ChordAction) {
    if platform == Platform::Linux {
        (ChordSession::Finished, ChordAction::RunFallback)
    } else {
        (ChordSession::Finished, ChordAction::Finish)
    }
}

/// The transition of the chord sequence, given whether the last action succeeded.
pub open spec fn spec_chord_step(state: ChordSession, ok: bool) -> (ChordSession, ChordAction) {
    match state {
        ChordSession::Connecting { platform } => if ok {
            (
                ChordSession::Pressing { platform },
                ChordAction::PressModifier(spec_chord_modifier(platform)),
            )
        } else {
            spec_chord_failure(platform)
        },
        ChordSession::Pressing { platform } => if ok {
            (ChordSession::Holding { platform }, ChordAction::Hold(spec_key_hold_ms(platform)))
        } else {
            spec_chord_failure(platform)
        },
        ChordSession::Holding { platform } => (
            ChordSession::Clicking { platform },
            ChordAction::ClickKey(PASTE_KEY),
        ),
        ChordSession::Clicking { platform } => (
            ChordSession::Releasing,
            ChordAction::ReleaseModifier(spec_chord_modifier(platform)),
        ),
        ChordSession::Releasing => (ChordSession::Finished, ChordAction::Finish),
        ChordSession::Finished => (ChordSession::Finished, ChordAction::Finish),
    }
}

impl ChordSession {
    /// Begins sending the paste chord on `platform`.
    pub fn start(platform: Platform) -> (r: (ChordSession, ChordAction))
        ensures
            r == (ChordSession::Connecting { platform }, ChordAction::Connect),
    {
        (ChordSession::Connecting { platform }, ChordAction::Connect)
    }

    /// One step, given whether the last action succeeded. A failed connection
    /// or modifier press falls back to the command line on Linux; a failed
    /// click is ignored, and the modifier is released unconditionally: a stuck
    /// modifier is worse than a missed paste.
    pub fn step(self, ok: bool) -> (r: (ChordSession, ChordAction))
        ensures
            r == spec_chord_step(self, ok),
    {
        match self {
            ChordSession::Connecting { platform } => if ok {
                (
                    ChordSession::Pressing { platform },
                    ChordAction::PressModifier(chord_modifier(platform)),
                )
            } else {
                chord_failure(platform)
            },
            ChordSession::Pressing { platform } => if ok {
                (ChordSession::Holding { platform }, ChordAction::Hold(key_hold_ms(platform)))
            } else {
                chord_failure(platform)
            },
            ChordSession::Holding { platform } => (
                ChordSession::Clicking { platform },
                ChordAction::ClickKey(PASTE_KEY),
            ),
            ChordSession::Clicking { platform } => (
                ChordSession::Releasing,
                ChordAction::ReleaseModifier(chord_modifier(platform)),
            ),
            ChordSession::Releasing => (ChordSession::Finished, ChordAction::Finish),
            ChordSession::Finished => (ChordSession::Finished, ChordAction::Finish),
        }
    }
}

fn chord_failure(platform: Platform) -> (r: (ChordSession, ChordAction))
    ensures
        r == spec_chord_failure(platform),
{
    match platform {
        Platform::Linux => (ChordSession::Finished, ChordAction::RunFallback),
        _ => (ChordSession::Finished, ChordAction::Finish),
    }
}

/// Whether the modifier is down in this state.
pub open spec fn spec_modifier_down(state: ChordSession) -> bool {
    state is Holding || state is Clicking
}

/// A pressed modifier is always released: while it is down no step stops or
/// falls back, whatever the caller reports, and the step out of the click
/// releases the same modifier that was pressed.
pub proof fn lemma_modifier_always_released(state: ChordSession, ok: bool)
    ensures
        spec_modifier_down(state) ==> !(spec_chord_step(state, ok).1 is Finish)
            && !(spec_chord_step(state, ok).1 is RunFallback),
        spec_modifier_down(state) ==> (spec_modifier_down(spec_chord_step(state, ok).0)
            || spec_chord_step(state, ok).1 is ReleaseModifier),
        state matches ChordSession::Clicking { platform } ==> spec_chord_step(state, ok).1
            == ChordAction::ReleaseModifier(spec_chord_modifier(platform)),
        spec_chord_step(state, ok).1 matches ChordAction::PressModifier(m) ==> state matches ChordSession::Connecting {
            platform,
        } && m == spec_chord_modifier(platform),
{
}

/// The command-line fallback is only run on Linux, and never once the
/// modifier is down.
pub proof fn lemma_fallback_only_before_press(state: ChordSession, ok: bool)
    ensures
        spec_chord_step(state, ok).1 is RunFallback ==> !ok && (state == ChordSession::Connecting {
            platform: Platform::Linux,
        } || state == ChordSession::Pressing { platform: Platform::Linux }),
{
}

/// The actions a sequence of success reports leads to, one per report, from
/// `state` on.
pub open spec fn spec_chord_trace(state: ChordSession, oks: Seq<bool>) -> Seq<ChordAction>
    decreases oks.len(),
{
    if oks.len() == 0 {
        Seq::empty()
    } else {
        let (next, action) = spec_chord_step(state, oks[0]);
        seq![action] + spec_chord_trace(next, oks.drop_first())
    }
}

/// After the hold the key is clicked, on every platform and whatever the
/// sleep reported, with the modifier still down.
pub proof fn lemma_hold_then_click(platform: Platform, ok: bool)
    ensures
        spec_chord_step(ChordSession::Holding { platform }, ok) == (
            ChordSession::Clicking { platform },
            ChordAction::ClickKey('v'),
        ),
{
}

/// A chord whose connection and modifier press succeed runs, on every
/// platform and whatever the later steps report: press Cmd (macOS) or Ctrl
/// (elsewhere), hold it 100 ms (macOS) or 50 ms (elsewhere), click V exactly
/// once, release the same modifier, stop.
pub proof fn lemma_chord_run(platform: Platform, b1: bool, b2: bool, b3: bool)
    ensures
        ({
            let m = if platform == Platform::MacOs {
                ChordModifier::Meta
            } else {
                ChordModifier::Control
            };
            let hold: u64 = if platform == Platform::MacOs {
                100
            } else {
                50
            };
            spec_chord_trace(ChordSession::Connecting { platform }, seq![true, true, b1, b2, b3])
                == seq![
                ChordAction::PressModifier(m),
                ChordAction::Hold(hold),
                ChordAction::ClickKey('v'),
                ChordAction::ReleaseModifier(m),
                ChordAction::Finish,
            ]
        }),
{
    let oks = seq![true, true, b1, b2, b3];
    reveal_with_fuel(spec_chord_trace, 6);
    assert(oks.drop_first() =~= seq![true, b1, b2, b3]);
    assert(oks.drop_first().drop_first() =~= seq![b1, b2, b3]);
    assert(oks.drop_first().drop_first().drop_first() =~= seq![b2, b3]);
    assert(oks.drop_first().drop_first().drop_first().drop_first() =~= seq![b3]);
    assert(oks.drop_first().drop_first().drop_first().drop_first().drop_first() =~= Seq::<bool>::empty());
    assert(spec_chord_trace(ChordSession::Connecting { platform }, oks) =~= seq![
        ChordAction::PressModifier(spec_chord_modifier(platform)),
        ChordAction::Hold(spec_key_hold_ms(platform)),
        ChordAction::ClickKey(PASTE_KEY),
        ChordAction::ReleaseModifier(spec_chord_modifier(platform)),
        ChordAction::Finish,
    ]);
}

/// Text resolved in type mode is always carried on, whatever it holds: the
/// picker is hidden and focus awaited with exactly that text.
pub proof fn lemma_resolved_text_kept(t: String)
    ensures
        spec_paste_step(PasteSession::ResolvingText, PasteEvent::TextResolved(Some(t))) == (
            PasteSession::Focusing { text: Some(t) },
            PasteAction::HideAndAwaitFocus,
        ),
{
}

/// A full paste-on-select run: in type mode, any resolved text followed by
/// focus and the modifier wait is typed as it is; in paste mode, focus and the
/// modifier wait lead to the paste chord.
pub proof fn lemma_paste_run_completes(setting: Seq<char>, t: String)
    ensures
        spec_from_setting(setting) == PasteOnSelect::Type ==> spec_paste_trace(
            spec_paste_start(spec_from_setting(setting)).0,
            seq![
                PasteEvent::TextResolved(Some(t)),
                PasteEvent::FocusAwaited(true),
                PasteEvent::ModifiersAwaited,
            ],
        ) == seq![
            PasteAction::HideAndAwaitFocus,
            PasteAction::AwaitModifierRelease,
            PasteAction::TypeText(t),
        ],
        spec_from_setting(setting) == PasteOnSelect::Paste ==> spec_paste_trace(
            spec_paste_start(spec_from_setting(setting)).0,
            seq![PasteEvent::FocusAwaited(true), PasteEvent::ModifiersAwaited],
        ) == seq![PasteAction::AwaitModifierRelease, PasteAction::SendPasteChord],
        spec_from_setting(setting) == PasteOnSelect::Type ==> spec_paste_start(
            spec_from_setting(setting),
        ).1 is ResolveText,
        spec_from_setting(setting) == PasteOnSelect::Paste ==> spec_paste_start(
            spec_from_setting(setting),
        ).1 is HideAndAwaitFocus,
{
    reveal_with_fuel(spec_paste_trace, 4);
    let e3 = seq![
        PasteEvent::TextResolved(Some(t)),
        PasteEvent::FocusAwaited(true),
        PasteEvent::ModifiersAwaited,
    ];
    assert(e3.drop_first() =~= seq![PasteEvent::FocusAwaited(true), PasteEvent::ModifiersAwaited]);
    assert(e3.drop_first().drop_first() =~= seq![PasteEvent::ModifiersAwaited]);
    assert(e3.drop_first().drop_first().drop_first() =~= Seq::<PasteEvent>::empty());
    let e2 = seq![PasteEvent::FocusAwaited(true), PasteEvent::ModifiersAwaited];
    assert(e2.drop_first() =~= seq![PasteEvent::ModifiersAwaited]);
    assert(e2.drop_first().drop_first() =~= Seq::<PasteEvent>::empty());
    if spec_from_setting(setting) == PasteOnSelect::Type {
        assert(spec_paste_trace(PasteSession::ResolvingText, e3) =~= seq![
            PasteAction::HideAndAwaitFocus,
            PasteAction::AwaitModifierRelease,
            PasteAction::TypeText(t),
        ]);
    }
    if spec_from_setting(setting) == PasteOnSelect::Paste {
        assert(spec_paste_trace(PasteSession::Focusing { text: None }, e2) =~= seq![
            PasteAction::AwaitModifierRelease,
            PasteAction::SendPasteChord,
        ]);
    }
}

/// Without focus nothing more happens, whatever was resolved; and a chord
/// whose connection or modifier press fails sends no key: it runs the
/// command-line fallback on Linux and stops elsewhere.
pub proof fn lemma_failures_stop(text: Option<String>, platform: Platform)
    ensures
        spec_paste_step(PasteSession::Focusing { text }, PasteEvent::FocusAwaited(false)) == (
            PasteSession::Finished,
            PasteAction::Finish,
        ),
        spec_paste_step(PasteSession::ResolvingText, PasteEvent::TextResolved(None)) == (
            PasteSession::Finished,
            PasteAction::Finish,
        ),
        spec_paste_step(PasteSession::Focusing { text }, PasteEvent::FocusAwaited(true)) == (
            PasteSession::ReleasingModifiers { text },
            PasteAction::AwaitModifierRelease,
        ),
        platform == Platform::Linux ==> spec_chord_step(ChordSession::Connecting { platform }, false).1
            == ChordAction::RunFallback && spec_chord_step(ChordSession::Pressing { platform }, false).1
            == ChordAction::RunFallback,
        platform != Platform::Linux ==> spec_chord_step(ChordSession::Connecting { platform }, false).1
            == ChordAction::Finish && spec_chord_step(ChordSession::Pressing { platform }, false).1
            == ChordAction::Finish,
{
}

/// The stored setting selects a mode by its exact name only: "paste" and
/// "type" select those modes, and every other setting, including other
/// spellings of those names, selects Off.
pub proof fn lemma_setting_names(setting: Seq<char>)
    ensures
        (spec_from_setting(setting) == PasteOnSelect::Paste) == (setting == "paste"@),
        (spec_from_setting(setting) == PasteOnSelect::Type) == (setting == "type"@),
        (spec_from_setting(setting) == PasteOnSelect::Off) == (setting != "paste"@ && setting != "type"@),
{
    reveal_strlit("paste");
    reveal_strlit("type");
    assert("paste"@.len() == 5 && "type"@.len() == 4);
}

} // verus!
