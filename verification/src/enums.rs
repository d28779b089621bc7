//! The enums shared between the settings store, the database and the front end,
//! with the names under which they are stored, and the codec that turns a JSON
//! list of clipboard-type names into clipboard types and back.
use vstd::prelude::*;
use crate::text::str_equals;

verus! {

/// Where the picker window appears.
#[derive(Clone, Copy, Debug, PartialEq, Eq, Structural, Hash)]
pub enum ClippyPosition {
    Cursor,
    TopLeft,
    TopRight,
    BottomLeft,
    BottomRight,
    TopCenter,
    BottomCenter,
    LeftCenter,
    RightCenter,
    Center,
}

/// What happens after the user picks an entry.
#[derive(Clone, Copy, Debug, PartialEq, Eq, Structural, Hash)]
pub enum PasteOnSelect {
    /// Copy only.
    Off,
    /// Copy, then send the paste chord to the window the user came from.
    Paste,
    /// Type the entry's text into the window the user came from.
    Type,
}

/// A remote store that clipboard history can be synced with.
#[derive(Clone, Copy, Debug, PartialEq, Eq, Structural, Hash)]
pub enum SyncProviderType {
    GoogleDrive,
}

/// Where the data folder lives.
#[derive(Clone, Copy, Debug, PartialEq, Eq, Structural, Hash)]
pub enum FolderLocation {
    Database,
    Config,
}

/// User-interface language.
#[derive(Clone, Copy, Debug, PartialEq, Eq, Structural, Hash)]
pub enum Language {
    English,
    Mandarin,
    Hindi,
    Spanish,
    French,
    Arabic,
    Bengali,
    Portuguese,
    Russian,
    Urdu,
    Japanese,
    German,
    Korean,
    Vietnamese,
    Turkish,
    Italian,
    Thai,
    Polish,
    Dutch,
}

/// Events the back end emits to the front end.
#[derive(Clone, Copy, Debug, PartialEq, Eq, Structural, Hash)]
pub enum ListenEvent {
    InitClipboards,
    InitHotkeys,
    InitSettings,
    EnableGlobalHotkeyEvent,
    ChangeTab,
    ScrollToTop,
    NewClipboard,
    Progress,
    PasswordLock,
}

/// Actions a hotkey can be bound to.
#[derive(Clone, Copy, Debug, PartialEq, Eq, Structural, Hash)]
pub enum HotkeyEvent {
    WindowDisplayToggle,
    TypeClipboard,
    ScrollToTop,
    SyncClipboardHistory,
    Settings,
    About,
    Exit,
    RecentClipboards,
    StarredClipboards,
    History,
    ViewMore,
    Digit1,
    Digit2,
    Digit3,
    Digit4,
    Digit5,
    Digit6,
    Digit7,
    Digit8,
    Digit9,
    Num1,
    Num2,
    Num3,
    Num4,
    Num5,
    Num6,
    Num7,
    Num8,
    Num9,
}

/// The application's windows.
#[derive(Clone, Copy, Debug, PartialEq, Eq, Structural, Hash)]
pub enum WebWindow {
    Main,
    About,
    Settings,
}

/// How a text entry is displayed.
#[derive(Clone, Copy, Debug, PartialEq, Eq, Structural, Hash)]
pub enum ClipboardTextType {
    Text,
    Link,
    Hex,
    Rgb,
}

/// A format that a clipboard entry was captured in.
#[derive(Clone, Copy, Debug, PartialEq, Eq, Structural, Hash)]
pub enum ClipboardType {
    Text,
    Image,
    Html,
    Rtf,
    File,
}

/// What a password is asked for.
#[derive(Clone, Copy, Debug, PartialEq, Eq, Structural, Hash)]
pub enum PasswordAction {
    Encrypt,
    Decrypt,
    SyncDecrypt,
}

/// The mode that a stored paste-on-select setting selects.
pub open spec fn spec_from_setting(value: Seq<char>) -> PasteOnSelect {
    if value == "paste"@ {
        PasteOnSelect::Paste
    } else if value == "type"@ {
        PasteOnSelect::Type
    } else {
        PasteOnSelect::Off
    }
}

impl PasteOnSelect {
    /// The name under which the mode is stored.
    pub open spec fn spec_name(self) -> Seq<char> {
        match self {
            PasteOnSelect::Off => "off"@,
            PasteOnSelect::Paste => "paste"@,
            PasteOnSelect::Type => "type"@,
        }
    }

    /// Anything unrecognised means Off: a settings row synced from a newer
    /// client can name a mode this build has no code for, and silently sending
    /// keystrokes is worse than doing nothing.
    pub fn from_setting(value: &str) -> (mode: Self)
        ensures
            mode == spec_from_setting(value@),
    {
        if str_equals(value, "paste") {
            PasteOnSelect::Paste
        } else if str_equals(value, "type") {
            PasteOnSelect::Type
        } else {
            PasteOnSelect::Off
        }
    }

    /// The name under which the mode is stored.
    pub fn to_string(&self) -> (s: String)
        ensures
            s@ == self.spec_name(),
    {
        match self {
            PasteOnSelect::Off => String::from_str("off"),
            PasteOnSelect::Paste => String::from_str("paste"),
            PasteOnSelect::Type => String::from_str("type"),
        }
    }
}

/// Reading back the stored name of a mode gives that mode.
pub proof fn lemma_setting_round_trip(mode: PasteOnSelect)
    ensures
        spec_from_setting(mode.spec_name()) == mode,
{
    reveal_strlit("off");
    reveal_strlit("paste");
    reveal_strlit("type");
    assert("off"@.len() == 3 && "paste"@.len() == 5 && "type"@.len() == 4);
}

/// A JSON document as stored in the database. Numbers are kept in their
/// decimal text, object members in their stored order.
#[derive(Debug, PartialEq)]
pub enum JsonValue {
    Null,
    Bool(bool),
    Number(String),
    String(String),
    Array(Vec<JsonValue>),
    Object(Vec<(String, JsonValue)>),
}

/// The clipboard type whose stored name is `name`, if any.
pub open spec fn spec_type_from_name(name: Seq<char>) -> Option<ClipboardType> {
    if name == ClipboardType::Text.spec_name() {
        Some(ClipboardType::Text)
    } else if name == ClipboardType::Image.spec_name() {
        Some(ClipboardType::Image)
    } else if name == ClipboardType::Html.spec_name() {
        Some(ClipboardType::Html)
    } else if name == ClipboardType::Rtf.spec_name() {
        Some(ClipboardType::Rtf)
    } else if name == ClipboardType::File.spec_name() {
        Some(ClipboardType::File)
    } else {
        None
    }
}

/// The clipboard type that one element of a stored type list names: a JSON
/// string holding a known name; anything else names none.
pub open spec fn spec_item_type(item: JsonValue) -> Option<ClipboardType> {
    match item {
        JsonValue::String(s) => spec_type_from_name(s@),
        _ => None,
    }
}

/// The clipboard types that the elements of `items` name, in order, with the
/// elements that name none left out.
pub open spec fn spec_types_in(items: Seq<JsonValue>) -> Seq<ClipboardType>
    decreases items.len(),
{
    if items.len() == 0 {
        Seq::empty()
    } else {
        let rest = spec_types_in(items.drop_last());
        match spec_item_type(items.last()) {
            Some(t) => rest.push(t),
            None => rest,
        }
    }
}

/// What a stored type list decodes to: the types its array names, or nothing
/// when the value is not an array or names no known type.
pub open spec fn spec_from_json_value(value: JsonValue) -> Option<Seq<ClipboardType>> {
    match value {
        JsonValue::Array(items) => {
            let types = spec_types_in(items@);
            if types.len() == 0 {
                None
            } else {
                Some(types)
            }
        },
        _ => None,
    }
}

/// `items` is the list of the stored names of `types`, in order.
pub open spec fn spec_names_of(items: Seq<JsonValue>, types: Seq<ClipboardType>) -> bool {
    &&& items.len() == types.len()
    &&& forall|i: int|
        0 <= i < items.len() ==> match #[trigger] items[i] {
            JsonValue::String(s) => s@ == types[i].spec_name(),
            _ => false,
        }
}

impl ClipboardType {
    /// The name under which the type is stored.
    pub open spec fn spec_name(self) -> Seq<char> {
        match self {
            ClipboardType::Text => "text"@,
            ClipboardType::Image => "image"@,
            ClipboardType::Html => "html"@,
            ClipboardType::Rtf => "rtf"@,
            ClipboardType::File => "file"@,
        }
    }

    /// The name under which the type is stored.
    pub fn to_string(&self) -> (s: String)
        ensures
            s@ == self.spec_name(),
    {
        match self {
            ClipboardType::Text => String::from_str("text"),
            ClipboardType::Image => String::from_str("image"),
            ClipboardType::Html => String::from_str("html"),
            ClipboardType::Rtf => String::from_str("rtf"),
            ClipboardType::File => String::from_str("file"),
        }
    }

    /// The type stored under `name`, if any.
    pub fn from_name(name: &str) -> (t: Option<Self>)
        ensures
            t == spec_type_from_name(name@),
    {
        if str_equals(name, "text") {
            Some(ClipboardType::Text)
        } else if str_equals(name, "image") {
            Some(ClipboardType::Image)
        } else if str_equals(name, "html") {
            Some(ClipboardType::Html)
        } else if str_equals(name, "rtf") {
            Some(ClipboardType::Rtf)
        } else if str_equals(name, "file") {
            Some(ClipboardType::File)
        } else {
            None
        }
    }

    /// Decodes a stored type list: the types that the array's string elements
    /// name, in order; elements that are not strings or name no type are
    /// skipped. Gives `None` for a value that is not an array or names no type.
    pub fn from_json_value(value: &JsonValue) -> (types: Option<Vec<Self>>)
        ensures
            match types {
                Some(v) => spec_from_json_value(*value) == Some(v@),
                None => spec_from_json_value(*value) is None,
            },
    {
        match value {
            JsonValue::Array(arr) => {
                let mut types: Vec<ClipboardType> = Vec::new();
                let mut i: usize = 0;
                while i < arr.len()
                    invariant
                        i <= arr@.len(),
                        types@ == spec_types_in(arr@.take(i as int)),
                    decreases arr@.len() - i,
                {
                    assert(arr@.take(i + 1).drop_last() =~= arr@.take(i as int));
                    assert(arr@.take(i + 1).last() == arr@[i as int]);
                    match &arr[i] {
                        JsonValue::String(s) => {
                            match Self::from_name(s.as_str()) {
                                Some(t) => types.push(t),
                                None => {},
                            }
                        },
                        _ => {},
                    }
                    i = i + 1;
                }
                assert(arr@.take(arr@.len() as int) =~= arr@);
                if types.len() == 0 {
                    None
                } else {
                    Some(types)
                }
            },
            _ => None,
        }
    }

    /// Encodes a type list as a JSON array of the types' stored names.
    pub fn to_json_value(types: &Vec<Self>) -> (value: JsonValue)
        ensures
            match value {
                JsonValue::Array(items) => spec_names_of(items@, types@),
                _ => false,
            },
    {
        let mut items: Vec<JsonValue> = Vec::new();
        let mut i: usize = 0;
        while i < types.len()
            invariant
                i <= types@.len(),
                spec_names_of(items@, types@.take(i as int)),
            decreases types@.len() - i,
        {
            let name = types[i].to_string();
            items.push(JsonValue::String(name));
            i = i + 1;
        }
        assert(types@.take(types@.len() as int) =~= types@);
        JsonValue::Array(items)
    }
}

/// Reading back the stored name of a clipboard type gives that type.
pub proof fn lemma_type_name_round_trip(t: ClipboardType)
    ensures
        spec_type_from_name(t.spec_name()) == Some(t),
{
    reveal_strlit("text");
    reveal_strlit("image");
    reveal_strlit("html");
    reveal_strlit("rtf");
    reveal_strlit("file");
    assert("text"@[0] == 't' && "image"@[0] == 'i' && "html"@[0] == 'h');
    assert("rtf"@[0] == 'r' && "file"@[0] == 'f');
}

proof fn lemma_types_in_names(items: Seq<JsonValue>, types: Seq<ClipboardType>)
    requires
        spec_names_of(items, types),
    ensures
        spec_types_in(items) == types,
    decreases items.len(),
{
    if items.len() > 0 {
        let last = items.len() - 1;
        assert(spec_names_of(items.drop_last(), types.drop_last())) by {
            assert forall|i: int| 0 <= i < items.drop_last().len() implies match #[trigger] items.drop_last()[i] {
                JsonValue::String(s) => s@ == types.drop_last()[i].spec_name(),
                _ => false,
            } by {
                assert(items.drop_last()[i] == items[i]);
            }
        }
        lemma_types_in_names(items.drop_last(), types.drop_last());
        lemma_type_name_round_trip(types[last]);
        assert(match items[last] {
            JsonValue::String(s) => s@ == types[last].spec_name(),
            _ => false,
        });
        assert(types.drop_last().push(types.last()) =~= types);
    } else {
        assert(types =~= Seq::empty());
    }
}

/// Decoding the encoding of a non-empty type list gives the list back; the
/// encoding of an empty list decodes to nothing.
pub proof fn lemma_json_round_trip(value: JsonValue, types: Seq<ClipboardType>)
    requires
        match value {
            JsonValue::Array(items) => spec_names_of(items@, types),
            _ => false,
        },
    ensures
        spec_from_json_value(value) == (if types.len() == 0 {
            None
        } else {
            Some(types)
        }),
{
    match value {
        JsonValue::Array(items) => {
            lemma_types_in_names(items@, types);
        },
        _ => {},
    }
}

/// A name decodes to a type only if it is that type's stored name, and every
/// type's stored name decodes to it.
pub proof fn lemma_type_from_name_inverse(name: Seq<char>, t: ClipboardType)
    ensures
        spec_type_from_name(name) == Some(t) <==> name == t.spec_name(),
{
    lemma_type_name_round_trip(t);
    if spec_type_from_name(name) == Some(t) {
        assert(name == t.spec_name());
    }
}

/// Decoding a type list goes element by element: an element that names no
/// type adds nothing, one that names a type appends it, and the decoding of
/// a list followed by more elements starts with the decoding of the list.
pub proof fn lemma_types_in_append(items: Seq<JsonValue>, item: JsonValue)
    ensures
        spec_item_type(item) is None ==> spec_types_in(items.push(item)) == spec_types_in(items),
        spec_item_type(item) matches Some(t) ==> spec_types_in(items.push(item)) == spec_types_in(
            items,
        ).push(t),
{
    assert(items.push(item).drop_last() =~= items);
}

} // verus!
