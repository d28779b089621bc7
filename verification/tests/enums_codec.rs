use clippy_core::enums::{ClipboardType, JsonValue, PasteOnSelect};
use clippy_core::text::{eq_ignore_ascii_case, str_equals};

fn s(x: &str) -> String {
    x.to_string()
}

#[test]
fn from_setting_recognises_the_modes() {
    assert_eq!(PasteOnSelect::from_setting("paste"), PasteOnSelect::Paste);
    assert_eq!(PasteOnSelect::from_setting("type"), PasteOnSelect::Type);
    assert_eq!(PasteOnSelect::from_setting("off"), PasteOnSelect::Off);
}

#[test]
fn from_setting_treats_unknown_as_off() {
    assert_eq!(PasteOnSelect::from_setting(""), PasteOnSelect::Off);
    assert_eq!(PasteOnSelect::from_setting("Paste"), PasteOnSelect::Off);
    assert_eq!(PasteOnSelect::from_setting("paste "), PasteOnSelect::Off);
    assert_eq!(PasteOnSelect::from_setting("autotype"), PasteOnSelect::Off);
}

#[test]
fn setting_names_round_trip() {
    for mode in [PasteOnSelect::Off, PasteOnSelect::Paste, PasteOnSelect::Type] {
        assert_eq!(PasteOnSelect::from_setting(&mode.to_string()), mode);
    }
    assert_eq!(PasteOnSelect::Off.to_string(), "off");
    assert_eq!(PasteOnSelect::Paste.to_string(), "paste");
    assert_eq!(PasteOnSelect::Type.to_string(), "type");
}

#[test]
fn clipboard_type_names() {
    assert_eq!(ClipboardType::Text.to_string(), "text");
    assert_eq!(ClipboardType::Image.to_string(), "image");
    assert_eq!(ClipboardType::Html.to_string(), "html");
    assert_eq!(ClipboardType::Rtf.to_string(), "rtf");
    assert_eq!(ClipboardType::File.to_string(), "file");
    assert_eq!(ClipboardType::from_name("rtf"), Some(ClipboardType::Rtf));
    assert_eq!(ClipboardType::from_name("TEXT"), None);
}

#[test]
fn from_json_value_keeps_known_names_in_order() {
    let value = JsonValue::Array(vec![
        JsonValue::String(s("html")),
        JsonValue::Number(s("3")),
        JsonValue::String(s("bogus")),
        JsonValue::String(s("text")),
        JsonValue::Null,
        JsonValue::Array(vec![JsonValue::String(s("image"))]),
        JsonValue::String(s("file")),
    ]);
    assert_eq!(
        ClipboardType::from_json_value(&value),
        Some(vec![ClipboardType::Html, ClipboardType::Text, ClipboardType::File])
    );
}

#[test]
fn from_json_value_rejects_non_arrays_and_empty_lists() {
    assert_eq!(ClipboardType::from_json_value(&JsonValue::String(s("text"))), None);
    assert_eq!(ClipboardType::from_json_value(&JsonValue::Null), None);
    assert_eq!(ClipboardType::from_json_value(&JsonValue::Bool(true)), None);
    assert_eq!(
        ClipboardType::from_json_value(&JsonValue::Object(vec![(s("text"), JsonValue::Null)])),
        None
    );
    assert_eq!(ClipboardType::from_json_value(&JsonValue::Array(vec![])), None);
    assert_eq!(
        ClipboardType::from_json_value(&JsonValue::Array(vec![JsonValue::String(s("png"))])),
        None
    );
}

#[test]
fn to_json_value_writes_names() {
    let types = vec![ClipboardType::Image, ClipboardType::Text];
    assert_eq!(
        ClipboardType::to_json_value(&types),
        JsonValue::Array(vec![JsonValue::String(s("image")), JsonValue::String(s("text"))])
    );
    assert_eq!(ClipboardType::to_json_value(&vec![]), JsonValue::Array(vec![]));
}

#[test]
fn json_round_trip() {
    let all = vec![
        ClipboardType::Text,
        ClipboardType::Image,
        ClipboardType::Html,
        ClipboardType::Rtf,
        ClipboardType::File,
        ClipboardType::Text,
    ];
    let encoded = ClipboardType::to_json_value(&all);
    assert_eq!(ClipboardType::from_json_value(&encoded), Some(all));
    let empty = ClipboardType::to_json_value(&vec![]);
    assert_eq!(ClipboardType::from_json_value(&empty), None);
}

#[test]
fn string_comparisons() {
    assert!(str_equals("héllo", "héllo"));
    assert!(!str_equals("héllo", "hello"));
    assert!(!str_equals("abc", "abcd"));
    assert!(eq_ignore_ascii_case("WAYland", "wayland"));
    assert!(!eq_ignore_ascii_case("wayland ", "wayland"));
    assert!(!eq_ignore_ascii_case("É", "é"));
    assert!(eq_ignore_ascii_case("", ""));
}
