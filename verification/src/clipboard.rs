//! Which text a clipboard entry offers for typing, and the steps that fetch
//! (and, where needed, decrypt) an entry before its text is taken.
use vstd::prelude::*;
use vstd::utf8::{encode_utf8, encode_scalar};
use crate::enums::{ClipboardType, JsonValue, spec_from_json_value};

verus! {

/// Entries longer than this many bytes are not typed by the type-clipboard
/// hotkey.
pub const TYPE_CLIPBOARD_MAX_BYTES: usize = 500;

/// What the paste logic reads of a stored clipboard entry: its type list, its
/// encryption flag, and the text of its text, HTML and RTF parts where present.
pub struct ClipboardEntry {
    pub types: JsonValue,
    pub encrypted: bool,
    pub text: Option<String>,
    pub html: Option<String>,
    pub rtf: Option<String>,
}

/// The characters of an optional string.
pub open spec fn spec_chars(s: Option<String>) -> Option<Seq<char>> {
    match s {
        Some(x) => Some(x@),
        None => None,
    }
}

/// The text that one clipboard type of `entry` offers: the text part for
/// text; for HTML and RTF the text part, or failing that the HTML or RTF part
/// itself; nothing for images and files.
pub open spec fn spec_type_content(entry: ClipboardEntry, t: ClipboardType) -> Option<Seq<char>> {
    match t {
        ClipboardType::Text => spec_chars(entry.text),
        ClipboardType::Html => if entry.text is Some {
            spec_chars(entry.text)
        } else {
            spec_chars(entry.html)
        },
        ClipboardType::Rtf => if entry.text is Some {
            spec_chars(entry.text)
        } else {
            spec_chars(entry.rtf)
        },
        _ => None,
    }
}

/// The text offered by the first type in `types` that offers any.
pub open spec fn spec_first_content(entry: ClipboardEntry, types: Seq<ClipboardType>) -> Option<
    Seq<char>,
>
    decreases types.len(),
{
    if types.len() == 0 {
        None
    } else {
        match spec_type_content(entry, types[0]) {
            Some(c) => Some(c),
            None => spec_first_content(entry, types.drop_first()),
        }
    }
}

/// The text of an entry: the text offered by the first of its stored types
/// that offers any; nothing when its type list does not decode.
pub open spec fn spec_clipboard_content(entry: ClipboardEntry) -> Option<Seq<char>> {
    match spec_from_json_value(entry.types) {
        Some(types) => spec_first_content(entry, types),
        None => None,
    }
}

/// The text the type-clipboard hotkey types for `entry`: its text, when that
/// is shorter than the byte limit in UTF-8.
pub open spec fn spec_last_clipboard_text(entry: ClipboardEntry) -> Option<Seq<char>> {
    match spec_clipboard_content(entry) {
        Some(c) => if encode_utf8(c).len() < TYPE_CLIPBOARD_MAX_BYTES {
            Some(c)
        } else {
            None
        },
        None => None,
    }
}

fn utf8_width(c: char) -> (w: usize)
    ensures
        w == encode_scalar(c as u32).len(),
{
    let v = c as u32;
    if v <= 0x7F {
        1
    } else if v <= 0x7FF {
        2
    } else if v <= 0xFFFF && !(0xD800 <= v && v <= 0xDFFF) {
        3
    } else {
        4
    }
}

/// Whether the UTF-8 encoding of `s` is shorter than `limit` bytes; the
/// widths are summed only until the limit is reached.
fn utf8_len_below(s: &str, limit: usize) -> (r: bool)
    requires
        limit <= 0x1_0000,
    ensures
        r == (encode_utf8(s@).len() < limit),
{
    if limit == 0 {
        return false;
    }
    let n = s.unicode_len();
    let mut total: usize = 0;
    let mut i: usize = 0;
    assert(s@.skip(0) =~= s@);
    while i < n
        invariant
            n == s@.len(),
            i <= n,
            total < limit,
            limit <= 0x1_0000,
            encode_utf8(s@).len() == total + encode_utf8(s@.skip(i as int)).len(),
        decreases n - i,
    {
        let c = s.get_char(i);
        assert(s@.skip(i as int)[0] == c);
        assert(s@.skip(i as int).drop_first() =~= s@.skip(i + 1));
        total = total + utf8_width(c);
        i = i + 1;
        if total >= limit {
            return false;
        }
    }
    assert(s@.skip(n as int) =~= Seq::<char>::empty());
    true
}

fn clone_opt(s: &Option<String>) -> (r: Option<String>)
    ensures
        spec_chars(r) == spec_chars(*s),
{
    match s {
        Some(x) => Some(x.clone()),
        None => None,
    }
}

fn type_content(entry: &ClipboardEntry, t: ClipboardType) -> (r: Option<String>)
    ensures
        spec_chars(r) == spec_type_content(*entry, t),
{
    match t {
        ClipboardType::Text => clone_opt(&entry.text),
        ClipboardType::Html => if entry.text.is_some() {
            clone_opt(&entry.text)
        } else {
            clone_opt(&entry.html)
        },
        ClipboardType::Rtf => if entry.text.is_some() {
            clone_opt(&entry.text)
        } else {
            clone_opt(&entry.rtf)
        },
        _ => None,
    }
}

/// The text of a clipboard entry that can be typed or pasted: taken from the
/// first of its stored types that has string content (images and files have
/// none).
pub fn get_clipboard_content(entry: &ClipboardEntry) -> (content: Option<String>)
    ensures
        spec_chars(content) == spec_clipboard_content(*entry),
{
    let types = match ClipboardType::from_json_value(&entry.types) {
        Some(types) => types,
        None => return None,
    };
    let n = types.len();
    let mut i: usize = 0;
    assert(types@.skip(0) =~= types@);
    while i < n
        invariant
            n == types@.len(),
            i <= n,
            spec_from_json_value(entry.types) == Some(types@),
            spec_first_content(*entry, types@) == spec_first_content(*entry, types@.skip(i as int)),
        decreases n - i,
    {
        assert(types@.skip(i as int)[0] == types@[i as int]);
        assert(types@.skip(i as int).drop_first() =~= types@.skip(i + 1));
        let c = type_content(entry, types[i]);
        if c.is_some() {
            assert(spec_first_content(*entry, types@.skip(i as int)) == spec_type_content(
                *entry,
                types@[i as int],
            ));
            return c;
        }
        i = i + 1;
    }
    assert(types@.skip(n as int) =~= Seq::<ClipboardType>::empty());
    None
}

/// The text that the type-clipboard hotkey types for the newest entry: its
/// content, unless that is at least the byte limit long.
pub fn last_clipboard_text(entry: &ClipboardEntry) -> (text: Option<String>)
    ensures
        spec_chars(text) == spec_last_clipboard_text(*entry),
        spec_clipboard_content(*entry) matches Some(c) ==> (encode_utf8(c).len() < 500 ==> spec_chars(text)
            == Some(c)),
        spec_chars(text) is Some ==> spec_chars(text) == spec_clipboard_content(*entry),
{
    match get_clipboard_content(entry) {
        Some(content) => {
            if utf8_len_below(content.as_str(), TYPE_CLIPBOARD_MAX_BYTES) {
                Some(content)
            } else {
                None
            }
        },
        None => None,
    }
}

/// Where fetching the text of an entry to type stands.
#[derive(Clone, Copy, Debug, PartialEq, Eq, Structural)]
pub enum TextResolution {
    /// The entry has been asked for.
    Loading,
    /// The entry has been handed out for decryption.
    Decrypting,
    /// The text, or its absence, has been reported.
    Done,
}

/// What the caller reports back.
pub enum ResolveEvent {
    /// The entry was loaded (`None`: loading failed); `key_set` tells whether
    /// an encryption key is available.
    Loaded { entry: Option<ClipboardEntry>, key_set: bool },
    /// The entry was decrypted (`None`: decryption failed).
    Decrypted(Option<ClipboardEntry>),
}

/// What the caller is asked to do next.
pub enum ResolveAction {
    /// Load the entry, then report `Loaded`.
    Load,
    /// Decrypt this entry, then report `Decrypted`.
    Decrypt(ClipboardEntry),
    /// Stop: this is the entry's text, or `None` when there is none to type.
    Finish(Option<String>),
}

/// The outcome of handing a loaded entry over: decrypt it when it is encrypted
/// and a key is available, otherwise take its text.
pub open spec fn spec_after_load(
    entry: ClipboardEntry,
    key_set: bool,
    next: TextResolution,
    action: ResolveAction,
) -> bool {
    if entry.encrypted && key_set {
        next == TextResolution::Decrypting && action == ResolveAction::Decrypt(entry)
    } else {
        next == TextResolution::Done && (action matches ResolveAction::Finish(t) && spec_chars(t)
            == spec_clipboard_content(entry))
    }
}

impl TextResolution {
    /// Begins fetching the text of an entry: first it is loaded.
    pub fn start() -> (r: (TextResolution, ResolveAction))
        ensures
            r.0 == TextResolution::Loading,
            r.1 is Load,
    {
        (TextResolution::Loading, ResolveAction::Load)
    }

    /// One step: a loaded entry is decrypted first when it is encrypted and a
    /// key is set; a failed load or decryption ends with no text; otherwise the
    /// entry's text is the result. An event that does not fit the state ends
    /// with no text.
    pub fn step(self, event: ResolveEvent) -> (r: (TextResolution, ResolveAction))
        ensures
            match (self, event) {
                (TextResolution::Loading, ResolveEvent::Loaded { entry: Some(e), key_set }) =>
                    spec_after_load(e, key_set, r.0, r.1),
                (TextResolution::Decrypting, ResolveEvent::Decrypted(Some(e))) => {
                    &&& r.0 == TextResolution::Done
                    &&& r.1 matches ResolveAction::Finish(t) && spec_chars(t)
                        == spec_clipboard_content(e)
                },
                _ => r.0 == TextResolution::Done && r.1 == ResolveAction::Finish(None),
            },
    {
        match (self, event) {
            (TextResolution::Loading, ResolveEvent::Loaded { entry: Some(e), key_set }) => {
                if e.encrypted && key_set {
                    (TextResolution::Decrypting, ResolveAction::Decrypt(e))
                } else {
                    let t = get_clipboard_content(&e);
                    (TextResolution::Done, ResolveAction::Finish(t))
                }
            },
            (TextResolution::Decrypting, ResolveEvent::Decrypted(Some(e))) => {
                let t = get_clipboard_content(&e);
                (TextResolution::Done, ResolveAction::Finish(t))
            },
            _ => (TextResolution::Done, ResolveAction::Finish(None)),
        }
    }
}

proof fn lemma_first_content_is_stored(entry: ClipboardEntry, types: Seq<ClipboardType>)
    ensures
        spec_first_content(entry, types) matches Some(c) ==> (spec_chars(entry.text) == Some(c)
            || spec_chars(entry.html) == Some(c) || spec_chars(entry.rtf) == Some(c)),
    decreases types.len(),
{
    if types.len() > 0 {
        lemma_first_content_is_stored(entry, types.drop_first());
    }
}

/// Whatever text an entry offers is one of its stored text, HTML or RTF parts.
pub proof fn lemma_content_is_stored(entry: ClipboardEntry)
    ensures
        spec_clipboard_content(entry) matches Some(c) ==> (spec_chars(entry.text) == Some(c)
            || spec_chars(entry.html) == Some(c) || spec_chars(entry.rtf) == Some(c)),
{
    if let Some(types) = spec_from_json_value(entry.types) {
        lemma_first_content_is_stored(entry, types);
    }
}

/// The type-clipboard hotkey types an entry's content exactly when that
/// content is shorter than the byte limit in UTF-8, whatever characters it
/// holds, and types nothing else.
pub proof fn lemma_last_clipboard_text_is_content(entry: ClipboardEntry)
    ensures
        spec_clipboard_content(entry) matches Some(c) ==> (encode_utf8(c).len() < 500
            ==> spec_last_clipboard_text(entry) == Some(c)),
        spec_clipboard_content(entry) matches Some(c) ==> (encode_utf8(c).len() >= 500
            ==> spec_last_clipboard_text(entry) is None),
        spec_clipboard_content(entry) is None ==> spec_last_clipboard_text(entry) is None,
{
}

/// What each clipboard type offers: text the text part; HTML and RTF the text
/// part when there is one, and otherwise their own part; images and files
/// nothing.
pub proof fn lemma_type_parts(entry: ClipboardEntry)
    ensures
        spec_type_content(entry, ClipboardType::Text) == spec_chars(entry.text),
        entry.text is Some ==> spec_type_content(entry, ClipboardType::Html) == spec_chars(entry.text)
            && spec_type_content(entry, ClipboardType::Rtf) == spec_chars(entry.text),
        entry.text is None ==> spec_type_content(entry, ClipboardType::Html) == spec_chars(entry.html)
            && spec_type_content(entry, ClipboardType::Rtf) == spec_chars(entry.rtf),
        spec_type_content(entry, ClipboardType::Image) is None,
        spec_type_content(entry, ClipboardType::File) is None,
{
}

/// Whether a clipboard type is one whose content is text.
pub open spec fn spec_is_textual(t: ClipboardType) -> bool {
    t == ClipboardType::Text || t == ClipboardType::Html || t == ClipboardType::Rtf
}

proof fn lemma_first_with_text(entry: ClipboardEntry, types: Seq<ClipboardType>)
    requires
        entry.text is Some,
    ensures
        spec_first_content(entry, types) == if exists|i: int| 0 <= i < types.len() && spec_is_textual(#[trigger] types[i]) {
            spec_chars(entry.text)
        } else {
            None
        },
    decreases types.len(),
{
    if types.len() > 0 {
        lemma_first_with_text(entry, types.drop_first());
        if !spec_is_textual(types[0]) {
            if exists|i: int| 0 <= i < types.len() && spec_is_textual(#[trigger] types[i]) {
                let i = choose|i: int| 0 <= i < types.len() && spec_is_textual(#[trigger] types[i]);
                assert(types.drop_first()[i - 1] == types[i]);
            }
            if exists|i: int| 0 <= i < types.drop_first().len() && spec_is_textual(#[trigger] types.drop_first()[i]) {
                let i = choose|i: int| 0 <= i < types.drop_first().len() && spec_is_textual(#[trigger] types.drop_first()[i]);
                assert(types[i + 1] == types.drop_first()[i]);
            }
        } else {
            assert(spec_is_textual(types[0]));
        }
    }
}

/// When an entry has a text part, that part is its content whenever any of
/// its stored types is text, HTML or RTF, and it has no content otherwise.
pub proof fn lemma_text_part_wins(entry: ClipboardEntry, types: Seq<ClipboardType>)
    requires
        entry.text is Some,
        spec_from_json_value(entry.types) == Some(types),
    ensures
        (exists|i: int| 0 <= i < types.len() && spec_is_textual(#[trigger] types[i]))
            ==> spec_clipboard_content(entry) == spec_chars(entry.text),
        (forall|i: int| 0 <= i < types.len() ==> !spec_is_textual(#[trigger] types[i]))
            ==> spec_clipboard_content(entry) is None,
{
    lemma_first_with_text(entry, types);
}

/// Loading an entry: an unencrypted entry, or any entry when no key is set,
/// gives its content directly; an encrypted entry with a key set is handed
/// out for decryption as it was loaded; a failed load or decryption gives no
/// text; a decrypted entry gives its content.
pub proof fn lemma_resolution(entry: ClipboardEntry, key_set: bool, next: TextResolution, action: ResolveAction)
    requires
        spec_after_load(entry, key_set, next, action),
    ensures
        !(entry.encrypted && key_set) ==> next == TextResolution::Done,
        !(entry.encrypted && key_set) ==> (action matches ResolveAction::Finish(t) && spec_chars(t)
            == spec_clipboard_content(entry)),
        entry.encrypted && key_set ==> next == TextResolution::Decrypting && action
            == ResolveAction::Decrypt(entry),
{
}

} // verus!
