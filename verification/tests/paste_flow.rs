use clippy_core::paste::{
    chord_modifier, key_hold_ms, ChordAction, ChordModifier, ChordSession, PasteAction, PasteEvent,
    PasteSession, Platform, PASTE_KEY,
};

#[test]
fn off_does_nothing() {
    let (state, action) = PasteSession::start("off");
    assert!(matches!(state, PasteSession::Finished));
    assert!(matches!(action, PasteAction::Finish));
    let (_, action) = PasteSession::start("something-new");
    assert!(matches!(action, PasteAction::Finish));
}

#[test]
fn paste_mode_sends_chord_after_focus() {
    let (state, action) = PasteSession::start("paste");
    assert!(matches!(action, PasteAction::HideAndAwaitFocus));
    let (state, action) = state.step(PasteEvent::FocusAwaited(true));
    assert!(matches!(action, PasteAction::AwaitModifierRelease));
    let (state, action) = state.step(PasteEvent::ModifiersAwaited);
    assert!(matches!(action, PasteAction::SendPasteChord));
    assert!(matches!(state, PasteSession::Finished));
}

#[test]
fn paste_mode_without_focus_sends_nothing() {
    let (state, _) = PasteSession::start("paste");
    let (state, action) = state.step(PasteEvent::FocusAwaited(false));
    assert!(matches!(action, PasteAction::Finish));
    let (_, action) = state.step(PasteEvent::ModifiersAwaited);
    assert!(matches!(action, PasteAction::Finish));
}

#[test]
fn type_mode_types_resolved_text() {
    let (state, action) = PasteSession::start("type");
    assert!(matches!(action, PasteAction::ResolveText));
    let (state, action) = state.step(PasteEvent::TextResolved(Some("hello".to_string())));
    assert!(matches!(action, PasteAction::HideAndAwaitFocus));
    let (state, action) = state.step(PasteEvent::FocusAwaited(true));
    assert!(matches!(action, PasteAction::AwaitModifierRelease));
    let (_, action) = state.step(PasteEvent::ModifiersAwaited);
    assert!(matches!(action, PasteAction::TypeText(ref t) if t == "hello"));
}

#[test]
fn type_mode_without_text_leaves_window_alone() {
    let (state, _) = PasteSession::start("type");
    let (state, action) = state.step(PasteEvent::TextResolved(None));
    assert!(matches!(action, PasteAction::Finish));
    assert!(matches!(state, PasteSession::Finished));
}

#[test]
fn out_of_order_events_stop() {
    let (state, _) = PasteSession::start("type");
    let (_, action) = state.step(PasteEvent::ModifiersAwaited);
    assert!(matches!(action, PasteAction::Finish));
    let (state, _) = PasteSession::start("paste");
    let (_, action) = state.step(PasteEvent::TextResolved(Some("x".to_string())));
    assert!(matches!(action, PasteAction::Finish));
}

#[test]
fn chord_keys_per_platform() {
    assert_eq!(chord_modifier(Platform::MacOs), ChordModifier::Meta);
    assert_eq!(chord_modifier(Platform::Linux), ChordModifier::Control);
    assert_eq!(chord_modifier(Platform::Other), ChordModifier::Control);
    assert_eq!(key_hold_ms(Platform::MacOs), 100);
    assert_eq!(key_hold_ms(Platform::Linux), 50);
    assert_eq!(key_hold_ms(Platform::Other), 50);
    assert_eq!(PASTE_KEY, 'v');
}

#[test]
fn chord_full_sequence() {
    let (state, action) = ChordSession::start(Platform::MacOs);
    assert_eq!(action, ChordAction::Connect);
    let (state, action) = state.step(true);
    assert_eq!(action, ChordAction::PressModifier(ChordModifier::Meta));
    let (state, action) = state.step(true);
    assert_eq!(action, ChordAction::Hold(100));
    let (state, action) = state.step(true);
    assert_eq!(action, ChordAction::ClickKey('v'));
    let (state, action) = state.step(false);
    assert_eq!(action, ChordAction::ReleaseModifier(ChordModifier::Meta));
    let (state, action) = state.step(false);
    assert_eq!(action, ChordAction::Finish);
    assert_eq!(state, ChordSession::Finished);
}

#[test]
fn chord_failures_fall_back_on_linux_only() {
    let (state, _) = ChordSession::start(Platform::Linux);
    let (_, action) = state.step(false);
    assert_eq!(action, ChordAction::RunFallback);
    let (state, _) = ChordSession::start(Platform::Linux);
    let (state, _) = state.step(true);
    let (_, action) = state.step(false);
    assert_eq!(action, ChordAction::RunFallback);
    let (state, _) = ChordSession::start(Platform::Other);
    let (_, action) = state.step(false);
    assert_eq!(action, ChordAction::Finish);
    let (state, _) = ChordSession::start(Platform::MacOs);
    let (state, _) = state.step(true);
    let (_, action) = state.step(false);
    assert_eq!(action, ChordAction::Finish);
}
