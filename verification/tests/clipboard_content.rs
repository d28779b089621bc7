use clippy_core::clipboard::{
    get_clipboard_content, last_clipboard_text, ClipboardEntry, ResolveAction, ResolveEvent,
    TextResolution, TYPE_CLIPBOARD_MAX_BYTES,
};
use clippy_core::enums::JsonValue;

fn types(names: &[&str]) -> JsonValue {
    JsonValue::Array(names.iter().map(|n| JsonValue::String(n.to_string())).collect())
}

fn entry(names: &[&str], text: Option<&str>, html: Option<&str>, rtf: Option<&str>) -> ClipboardEntry {
    ClipboardEntry {
        types: types(names),
        encrypted: false,
        text: text.map(|s| s.to_string()),
        html: html.map(|s| s.to_string()),
        rtf: rtf.map(|s| s.to_string()),
    }
}

#[test]
fn text_type_gives_text() {
    let e = entry(&["text"], Some("hello"), Some("<p>hello</p>"), None);
    assert_eq!(get_clipboard_content(&e), Some("hello".to_string()));
}

#[test]
fn html_prefers_text_then_html() {
    let e = entry(&["html"], Some("plain"), Some("<b>rich</b>"), None);
    assert_eq!(get_clipboard_content(&e), Some("plain".to_string()));
    let e = entry(&["html"], None, Some("<b>rich</b>"), None);
    assert_eq!(get_clipboard_content(&e), Some("<b>rich</b>".to_string()));
}

#[test]
fn rtf_prefers_text_then_rtf() {
    let e = entry(&["rtf"], None, Some("<b>x</b>"), Some("{\\rtf1 x}"));
    assert_eq!(get_clipboard_content(&e), Some("{\\rtf1 x}".to_string()));
    let e = entry(&["rtf"], Some("x"), None, Some("{\\rtf1 x}"));
    assert_eq!(get_clipboard_content(&e), Some("x".to_string()));
}

#[test]
fn images_and_files_have_no_text() {
    let e = entry(&["image", "file"], Some("name.png"), None, None);
    assert_eq!(get_clipboard_content(&e), None);
}

#[test]
fn first_type_with_content_wins() {
    let e = entry(&["image", "text", "html"], None, Some("<i>h</i>"), None);
    assert_eq!(get_clipboard_content(&e), Some("<i>h</i>".to_string()));
    let e = entry(&["rtf", "html"], None, Some("<i>h</i>"), Some("r"));
    assert_eq!(get_clipboard_content(&e), Some("r".to_string()));
}

#[test]
fn undecodable_types_give_nothing() {
    let mut e = entry(&[], Some("hello"), None, None);
    assert_eq!(get_clipboard_content(&e), None);
    e.types = JsonValue::String("text".to_string());
    assert_eq!(get_clipboard_content(&e), None);
    e.types = types(&["unknown"]);
    assert_eq!(get_clipboard_content(&e), None);
}

#[test]
fn last_clipboard_text_limit_is_in_bytes() {
    assert_eq!(TYPE_CLIPBOARD_MAX_BYTES, 500);
    let short = "a".repeat(499);
    let e = entry(&["text"], Some(&short), None, None);
    assert_eq!(last_clipboard_text(&e), Some(short.clone()));
    let long = "a".repeat(500);
    let e = entry(&["text"], Some(&long), None, None);
    assert_eq!(last_clipboard_text(&e), None);
    // 250 two-byte characters are 500 bytes.
    let wide = "é".repeat(250);
    let e = entry(&["text"], Some(&wide), None, None);
    assert_eq!(last_clipboard_text(&e), None);
    let wide_short = format!("{}a", "é".repeat(249));
    let e = entry(&["text"], Some(&wide_short), None, None);
    assert_eq!(last_clipboard_text(&e), Some(wide_short.clone()));
    let emoji = "😀".repeat(125);
    let e = entry(&["text"], Some(&emoji), None, None);
    assert_eq!(last_clipboard_text(&e), None);
    let e = entry(&["image"], Some("x"), None, None);
    assert_eq!(last_clipboard_text(&e), None);
    let e = entry(&["text"], Some(""), None, None);
    assert_eq!(last_clipboard_text(&e), Some(String::new()));
}

#[test]
fn resolution_of_plain_entry() {
    let (state, action) = TextResolution::start();
    assert_eq!(state, TextResolution::Loading);
    assert!(matches!(action, ResolveAction::Load));
    let e = entry(&["text"], Some("hi"), None, None);
    let (state, action) = state.step(ResolveEvent::Loaded { entry: Some(e), key_set: true });
    assert_eq!(state, TextResolution::Done);
    assert!(matches!(action, ResolveAction::Finish(Some(ref t)) if t == "hi"));
}

#[test]
fn resolution_decrypts_when_encrypted_and_key_set() {
    let (state, _) = TextResolution::start();
    let mut e = entry(&["text"], Some("cipher"), None, None);
    e.encrypted = true;
    let (state, action) = state.step(ResolveEvent::Loaded { entry: Some(e), key_set: true });
    assert_eq!(state, TextResolution::Decrypting);
    let handed = match action {
        ResolveAction::Decrypt(e) => e,
        _ => panic!("expected a decryption request"),
    };
    assert_eq!(handed.text.as_deref(), Some("cipher"));
    let plain = entry(&["text"], Some("plain"), None, None);
    let (state, action) = state.step(ResolveEvent::Decrypted(Some(plain)));
    assert_eq!(state, TextResolution::Done);
    assert!(matches!(action, ResolveAction::Finish(Some(ref t)) if t == "plain"));
}

#[test]
fn resolution_without_key_reads_entry_as_is() {
    let (state, _) = TextResolution::start();
    let mut e = entry(&["text"], Some("stored"), None, None);
    e.encrypted = true;
    let (_, action) = state.step(ResolveEvent::Loaded { entry: Some(e), key_set: false });
    assert!(matches!(action, ResolveAction::Finish(Some(ref t)) if t == "stored"));
}

#[test]
fn resolution_failures_give_no_text() {
    let (state, _) = TextResolution::start();
    let (state2, action) = state.step(ResolveEvent::Loaded { entry: None, key_set: true });
    assert_eq!(state2, TextResolution::Done);
    assert!(matches!(action, ResolveAction::Finish(None)));
    let (_, action) = TextResolution::Decrypting.step(ResolveEvent::Decrypted(None));
    assert!(matches!(action, ResolveAction::Finish(None)));
    let (_, action) = TextResolution::Loading.step(ResolveEvent::Decrypted(None));
    assert!(matches!(action, ResolveAction::Finish(None)));
}
