//! The layout decoder: parses raw document text into a `Layout` with
//! defaulted fields.
//!
//! The JSON codec itself is an external collaborator (serde_json); the
//! library reads each known field through a trusted wrapper and is verified
//! to assemble the layout exactly: a missing field takes its default, a
//! present field of the wrong shape fails the whole decode.

use vstd::prelude::*;

use crate::error::LayoutError;
use crate::layout::Header;
use crate::layout::HeaderV;
use crate::layout::Layout;
use crate::layout::LayoutV;
use crate::layout::uniq_keys;
use crate::layout::view_comp;
use crate::layout::view_pairs;
use crate::layout::view_string_table;
use crate::layout::view_strings;

verus! {

/// Whether the text parses as a JSON document with an object at the root.
pub uninterp spec fn json_doc_is_object(raw: Seq<char>) -> bool;

/// The string field under `key` of the document `raw`: `None` when the
/// document or the field is malformed, `Some(None)` when the field is
/// absent, `Some(Some(s))` when it holds the string `s`.
pub uninterp spec fn json_string_field(raw: Seq<char>, key: Seq<char>) -> Option<
    Option<Seq<char>>,
>;

/// The string-sequence field under `key`, with the same shape as
/// `json_string_field`.
pub uninterp spec fn json_string_list_field(raw: Seq<char>, key: Seq<char>) -> Option<
    Option<Seq<Seq<char>>>,
>;

/// The string-to-string mapping field under `key`, as key/value pairs in
/// ascending key order.
pub uninterp spec fn json_string_map_field(raw: Seq<char>, key: Seq<char>) -> Option<
    Option<Seq<(Seq<char>, Seq<char>)>>,
>;

/// The composition mapping field under `key`, as key/chord-table pairs in
/// ascending key order.
pub uninterp spec fn json_composition_field(raw: Seq<char>, key: Seq<char>) -> Option<
    Option<Seq<(Seq<char>, Seq<Seq<Seq<char>>>)>>,
>;

/// View of a fetched string field.
pub open spec fn view_string_field(r: Option<Option<String>>) -> Option<Option<Seq<char>>> {
    match r {
        Option::None => Option::None,
        Option::Some(Option::None) => Option::Some(Option::None),
        Option::Some(Option::Some(s)) => Option::Some(Option::Some(s@)),
    }
}

/// View of a fetched string-sequence field.
pub open spec fn view_list_field(r: Option<Option<Vec<String>>>) -> Option<
    Option<Seq<Seq<char>>>,
> {
    match r {
        Option::None => Option::None,
        Option::Some(Option::None) => Option::Some(Option::None),
        Option::Some(Option::Some(v)) => Option::Some(Option::Some(view_strings(v@))),
    }
}

/// View of a fetched mapping field.
pub open spec fn view_map_field(r: Option<Option<Vec<(String, String)>>>) -> Option<
    Option<Seq<(Seq<char>, Seq<char>)>>,
> {
    match r {
        Option::None => Option::None,
        Option::Some(Option::None) => Option::Some(Option::None),
        Option::Some(Option::Some(v)) => Option::Some(Option::Some(view_pairs(v@))),
    }
}

/// View of a fetched composition field.
pub open spec fn view_comp_field(r: Option<Option<Vec<(String, Vec<Vec<String>>)>>>) -> Option<
    Option<Seq<(Seq<char>, Seq<Seq<Seq<char>>>)>>,
> {
    match r {
        Option::None => Option::None,
        Option::Some(Option::None) => Option::Some(Option::None),
        Option::Some(Option::Some(v)) => Option::Some(Option::Some(view_comp(v@))),
    }
}

/// Relies on serde_json::from_str::<serde_json::Value>: whether the text
/// parses as JSON with an object at the root depends on the text alone.
#[verifier::external_body]
fn jf_is_object(raw: &str) -> (r: bool)
    ensures
        r == json_doc_is_object(raw@),
{
    match serde_json::from_str::<serde_json::Value>(raw) {
        Ok(serde_json::Value::Object(_)) => true,
        _ => false,
    }
}

/// Relies on serde_json::from_str, serde_json::Value::get and
/// serde_json::Value::as_str: the presence and string value of a field
/// depend on the text and the key alone.
#[verifier::external_body]
fn jf_string(raw: &str, key: &str) -> (r: Option<Option<String>>)
    ensures
        view_string_field(r) == json_string_field(raw@, key@),
{
    let v: serde_json::Value = match serde_json::from_str(raw) {
        Ok(v) => v,
        Err(_) => return Option::None,
    };
    match v.get(key) {
        None => Option::Some(Option::None),
        Some(f) => match f.as_str() {
            Some(s) => Option::Some(Option::Some(s.to_string())),
            None => Option::None,
        },
    }
}

/// Relies on serde_json::from_str, serde_json::Value::get and
/// serde_json::from_value::<Vec<String>>: the presence and value of a
/// string-sequence field depend on the text and the key alone.
#[verifier::external_body]
fn jf_string_list(raw: &str, key: &str) -> (r: Option<Option<Vec<String>>>)
    ensures
        view_list_field(r) == json_string_list_field(raw@, key@),
{
    let v: serde_json::Value = match serde_json::from_str(raw) {
        Ok(v) => v,
        Err(_) => return Option::None,
    };
    match v.get(key) {
        None => Option::Some(Option::None),
        Some(f) => match serde_json::from_value::<Vec<String>>(f.clone()) {
            Ok(xs) => Option::Some(Option::Some(xs)),
            Err(_) => Option::None,
        },
    }
}

/// Relies on serde_json::from_str, serde_json::Value::get and
/// serde_json::from_value::<BTreeMap<String, String>>: the entries of an
/// object field, in ascending key order, depend on the text and the key
/// alone; the keys of a JSON object are unique.
#[verifier::external_body]
fn jf_string_map(raw: &str, key: &str) -> (r: Option<Option<Vec<(String, String)>>>)
    ensures
        view_map_field(r) == json_string_map_field(raw@, key@),
        r matches Option::Some(f) && f matches Option::Some(v) ==> uniq_keys(view_pairs(v@)),
{
    let v: serde_json::Value = match serde_json::from_str(raw) {
        Ok(v) => v,
        Err(_) => return Option::None,
    };
    match v.get(key) {
        None => Option::Some(Option::None),
        Some(f) => match serde_json::from_value::<std::collections::BTreeMap<String, String>>(
            f.clone(),
        ) {
            Ok(m) => Option::Some(Option::Some(m.into_iter().collect())),
            Err(_) => Option::None,
        },
    }
}

/// Relies on serde_json::from_str, serde_json::Value::get and
/// serde_json::from_value::<BTreeMap<String, Vec<Vec<String>>>>: the
/// entries of the composition field, in ascending key order, depend on the
/// text and the key alone; the keys of a JSON object are unique.
#[verifier::external_body]
fn jf_composition(raw: &str, key: &str) -> (r: Option<Option<Vec<(String, Vec<Vec<String>>)>>>)
    ensures
        view_comp_field(r) == json_composition_field(raw@, key@),
        r matches Option::Some(f) && f matches Option::Some(v) ==> uniq_keys(view_comp(v@)),
{
    let v: serde_json::Value = match serde_json::from_str(raw) {
        Ok(v) => v,
        Err(_) => return Option::None,
    };
    match v.get(key) {
        None => Option::Some(Option::None),
        Some(f) => match serde_json::from_value::<
            std::collections::BTreeMap<String, Vec<Vec<String>>>,
        >(f.clone()) {
            Ok(m) => Option::Some(Option::Some(m.into_iter().collect())),
            Err(_) => Option::None,
        },
    }
}

/// The field's value, or absent.
pub open spec fn or_absent_string(f: Option<Option<Seq<char>>>) -> Option<Seq<char>> {
    match f {
        Option::Some(Option::Some(v)) => Option::Some(v),
        _ => Option::None,
    }
}

/// The field's value, or the empty sequence.
pub open spec fn or_empty_list(f: Option<Option<Seq<Seq<char>>>>) -> Seq<Seq<char>> {
    match f {
        Option::Some(Option::Some(v)) => v,
        _ => Seq::empty(),
    }
}

/// The field's value, or the empty mapping.
pub open spec fn or_empty_map(f: Option<Option<Seq<(Seq<char>, Seq<char>)>>>) -> Seq<
    (Seq<char>, Seq<char>),
> {
    match f {
        Option::Some(Option::Some(v)) => v,
        _ => Seq::empty(),
    }
}

/// The field's value, or the empty composition table.
pub open spec fn or_empty_comp(f: Option<Option<Seq<(Seq<char>, Seq<Seq<Seq<char>>>)>>>) -> Seq<
    (Seq<char>, Seq<Seq<Seq<char>>>),
> {
    match f {
        Option::Some(Option::Some(v)) => v,
        _ => Seq::empty(),
    }
}

/// All four header fields are absent from the document.
pub open spec fn header_absent(raw: Seq<char>) -> bool {
    &&& json_string_list_field(raw, "name"@) == Option::Some(Option::None::<Seq<Seq<char>>>)
    &&& json_string_list_field(raw, "authors"@) == Option::Some(Option::None::<Seq<Seq<char>>>)
    &&& json_string_list_field(raw, "notes"@) == Option::Some(Option::None::<Seq<Seq<char>>>)
    &&& json_string_list_field(raw, "locale"@) == Option::Some(Option::None::<Seq<Seq<char>>>)
}

/// The decoded header: malformed, absent, or present with defaulted fields.
pub open spec fn spec_header(raw: Seq<char>) -> Option<Option<HeaderV>> {
    if json_string_list_field(raw, "name"@) is None || json_string_list_field(raw, "authors"@)
        is None || json_string_list_field(raw, "notes"@) is None || json_string_list_field(
        raw,
        "locale"@,
    ) is None {
        Option::None
    } else if header_absent(raw) {
        Option::Some(Option::None)
    } else {
        Option::Some(
            Option::Some(
                HeaderV {
                    name: or_empty_list(json_string_list_field(raw, "name"@)),
                    authors: or_empty_list(json_string_list_field(raw, "authors"@)),
                    notes: or_empty_list(json_string_list_field(raw, "notes"@)),
                    locale: or_empty_list(json_string_list_field(raw, "locale"@)),
                },
            ),
        )
    }
}

/// The header wrapped by `spec_header`, once it is not malformed.
pub open spec fn or_header(f: Option<Option<HeaderV>>) -> Option<HeaderV> {
    match f {
        Option::Some(h) => h,
        Option::None => Option::None,
    }
}

/// Every field of the document is either absent or of the documented shape.
pub open spec fn fields_ok(raw: Seq<char>) -> bool {
    &&& json_doc_is_object(raw)
    &&& spec_header(raw) is Some
    &&& json_string_field(raw, "hid_locale"@) is Some
    &&& json_string_field(raw, "parent"@) is Some
    &&& json_string_list_field(raw, "locale_notes"@) is Some
    &&& json_string_map_field(raw, "to_hid_locale"@) is Some
    &&& json_string_map_field(raw, "from_hid_locale"@) is Some
    &&& json_string_list_field(raw, "keyboard_notes"@) is Some
    &&& json_string_map_field(raw, "to_hid_keyboard"@) is Some
    &&& json_string_map_field(raw, "from_hid_keyboard"@) is Some
    &&& json_string_list_field(raw, "led_notes"@) is Some
    &&& json_string_map_field(raw, "to_hid_led"@) is Some
    &&& json_string_map_field(raw, "from_hid_led"@) is Some
    &&& json_string_list_field(raw, "sysctrl_notes"@) is Some
    &&& json_string_map_field(raw, "to_hid_sysctrl"@) is Some
    &&& json_string_map_field(raw, "from_hid_sysctrl"@) is Some
    &&& json_string_list_field(raw, "consumer_notes"@) is Some
    &&& json_string_map_field(raw, "to_hid_consumer"@) is Some
    &&& json_string_map_field(raw, "from_hid_consumer"@) is Some
    &&& json_composition_field(raw, "composition"@) is Some
}

/// What decoding the text yields: `None` when the document is malformed,
/// else the layout with every missing field defaulted.
pub open spec fn spec_decode(raw: Seq<char>) -> Option<LayoutV> {
    if !fields_ok(raw) {
        Option::None
    } else {
        Option::Some(
            LayoutV {
                header: or_header(spec_header(raw)),
                hid_locale: or_absent_string(json_string_field(raw, "hid_locale"@)),
                parent: or_absent_string(json_string_field(raw, "parent"@)),
                locale_notes: or_empty_list(json_string_list_field(raw, "locale_notes"@)),
                to_hid_locale: or_empty_map(json_string_map_field(raw, "to_hid_locale"@)),
                from_hid_locale: or_empty_map(json_string_map_field(raw, "from_hid_locale"@)),
                keyboard_notes: or_empty_list(json_string_list_field(raw, "keyboard_notes"@)),
                to_hid_keyboard: or_empty_map(json_string_map_field(raw, "to_hid_keyboard"@)),
                from_hid_keyboard: or_empty_map(json_string_map_field(raw, "from_hid_keyboard"@)),
                led_notes: or_empty_list(json_string_list_field(raw, "led_notes"@)),
                to_hid_led: or_empty_map(json_string_map_field(raw, "to_hid_led"@)),
                from_hid_led: or_empty_map(json_string_map_field(raw, "from_hid_led"@)),
                sysctrl_notes: or_empty_list(json_string_list_field(raw, "sysctrl_notes"@)),
                to_hid_sysctrl: or_empty_map(json_string_map_field(raw, "to_hid_sysctrl"@)),
                from_hid_sysctrl: or_empty_map(json_string_map_field(raw, "from_hid_sysctrl"@)),
                consumer_notes: or_empty_list(json_string_list_field(raw, "consumer_notes"@)),
                to_hid_consumer: or_empty_map(json_string_map_field(raw, "to_hid_consumer"@)),
                from_hid_consumer: or_empty_map(json_string_map_field(raw, "from_hid_consumer"@)),
                composition: or_empty_comp(json_composition_field(raw, "composition"@)),
            },
        )
    }
}

/// A decode failure.
fn decode_err() -> (r: LayoutError)
    ensures
        r is Decode,
{
    LayoutError::Decode("malformed layout document".to_owned())
}

/// An absent string-sequence field defaults to no entries.
fn or_empty_vec(v: Option<Vec<String>>) -> (r: Vec<String>)
    ensures
        view_strings(r@) == or_empty_list(view_list_field(Option::Some(v))),
{
    match v {
        Option::Some(v) => v,
        Option::None => {
            let r: Vec<String> = Vec::new();
            proof {
                assert(view_strings(r@) =~= Seq::<Seq<char>>::empty());
            }
            r
        },
    }
}

/// An absent mapping field defaults to no entries.
fn or_empty_pairs(v: Option<Vec<(String, String)>>) -> (r: Vec<(String, String)>)
    requires
        v matches Option::Some(x) ==> uniq_keys(view_pairs(x@)),
    ensures
        view_pairs(r@) == or_empty_map(view_map_field(Option::Some(v))),
        uniq_keys(view_pairs(r@)),
{
    match v {
        Option::Some(v) => v,
        Option::None => {
            let r: Vec<(String, String)> = Vec::new();
            proof {
                assert(view_pairs(r@) =~= Seq::<(Seq<char>, Seq<char>)>::empty());
            }
            r
        },
    }
}

/// An absent composition field defaults to no entries.
fn or_empty_comp_vec(v: Option<Vec<(String, Vec<Vec<String>>)>>) -> (r: Vec<
    (String, Vec<Vec<String>>),
>)
    requires
        v matches Option::Some(x) ==> uniq_keys(view_comp(x@)),
    ensures
        view_comp(r@) == or_empty_comp(view_comp_field(Option::Some(v))),
        uniq_keys(view_comp(r@)),
{
    match v {
        Option::Some(v) => v,
        Option::None => {
            let r: Vec<(String, Vec<Vec<String>>)> = Vec::new();
            proof {
                assert(view_comp(r@) =~= Seq::<(Seq<char>, Seq<Seq<Seq<char>>>)>::empty());
            }
            r
        },
    }
}

/// Decode raw document text into a layout.
///
/// Succeeds exactly when the text is a JSON object whose known fields have
/// the documented shapes; every missing field takes its default. The raw
/// text is the single input: the result is a function of it.
pub fn decode(raw: &str) -> (r: Result<Layout, LayoutError>)
    ensures
        r is Ok <==> spec_decode(raw@) is Some,
        r matches Ok(l) ==> spec_decode(raw@) == Option::Some(l@) && l@.wf(),
        r matches Err(e) ==> e is Decode,
{
    if !jf_is_object(raw) {
        return Err(decode_err());
    }
    let name_f = match jf_string_list(raw, "name") {
        Option::None => return Err(decode_err()),
        Option::Some(x) => x,
    };
    let authors_f = match jf_string_list(raw, "authors") {
        Option::None => return Err(decode_err()),
        Option::Some(x) => x,
    };
    let notes_f = match jf_string_list(raw, "notes") {
        Option::None => return Err(decode_err()),
        Option::Some(x) => x,
    };
    let locale_f = match jf_string_list(raw, "locale") {
        Option::None => return Err(decode_err()),
        Option::Some(x) => x,
    };
    let hid_locale = match jf_string(raw, "hid_locale") {
        Option::None => return Err(decode_err()),
        Option::Some(x) => x,
    };
    let parent = match jf_string(raw, "parent") {
        Option::None => return Err(decode_err()),
        Option::Some(x) => x,
    };
    let locale_notes = match jf_string_list(raw, "locale_notes") {
        Option::None => return Err(decode_err()),
        Option::Some(x) => x,
    };
    let to_hid_locale = match jf_string_map(raw, "to_hid_locale") {
        Option::None => return Err(decode_err()),
        Option::Some(x) => x,
    };
    let from_hid_locale = match jf_string_map(raw, "from_hid_locale") {
        Option::None => return Err(decode_err()),
        Option::Some(x) => x,
    };
    let keyboard_notes = match jf_string_list(raw, "keyboard_notes") {
        Option::None => return Err(decode_err()),
        Option::Some(x) => x,
    };
    let to_hid_keyboard = match jf_string_map(raw, "to_hid_keyboard") {
        Option::None => return Err(decode_err()),
        Option::Some(x) => x,
    };
    let from_hid_keyboard = match jf_string_map(raw, "from_hid_keyboard") {
        Option::None => return Err(decode_err()),
        Option::Some(x) => x,
    };
    let led_notes = match jf_string_list(raw, "led_notes") {
        Option::None => return Err(decode_err()),
        Option::Some(x) => x,
    };
    let to_hid_led = match jf_string_map(raw, "to_hid_led") {
        Option::None => return Err(decode_err()),
        Option::Some(x) => x,
    };
    let from_hid_led = match jf_string_map(raw, "from_hid_led") {
        Option::None => return Err(decode_err()),
        Option::Some(x) => x,
    };
    let sysctrl_notes = match jf_string_list(raw, "sysctrl_notes") {
        Option::None => return Err(decode_err()),
        Option::Some(x) => x,
    };
    let to_hid_sysctrl = match jf_string_map(raw, "to_hid_sysctrl") {
        Option::None => return Err(decode_err()),
        Option::Some(x) => x,
    };
    let from_hid_sysctrl = match jf_string_map(raw, "from_hid_sysctrl") {
        Option::None => return Err(decode_err()),
        Option::Some(x) => x,
    };
    let consumer_notes = match jf_string_list(raw, "consumer_notes") {
        Option::None => return Err(decode_err()),
        Option::Some(x) => x,
    };
    let to_hid_consumer = match jf_string_map(raw, "to_hid_consumer") {
        Option::None => return Err(decode_err()),
        Option::Some(x) => x,
    };
    let from_hid_consumer = match jf_string_map(raw, "from_hid_consumer") {
        Option::None => return Err(decode_err()),
        Option::Some(x) => x,
    };
    let composition = match jf_composition(raw, "composition") {
        Option::None => return Err(decode_err()),
        Option::Some(x) => x,
    };
    let header = if name_f.is_none() && authors_f.is_none() && notes_f.is_none()
        && locale_f.is_none() {
        Option::None
    } else {
        Option::Some(
            Header {
                name: or_empty_vec(name_f),
                authors: or_empty_vec(authors_f),
                notes: or_empty_vec(notes_f),
                locale: or_empty_vec(locale_f),
            },
        )
    };
    let composition_v = or_empty_comp_vec(composition);
    let l = Layout {
        header,
        hid_locale,
        parent,
        locale_notes: or_empty_vec(locale_notes),
        to_hid_locale: or_empty_pairs(to_hid_locale),
        from_hid_locale: or_empty_pairs(from_hid_locale),
        keyboard_notes: or_empty_vec(keyboard_notes),
        to_hid_keyboard: or_empty_pairs(to_hid_keyboard),
        from_hid_keyboard: or_empty_pairs(from_hid_keyboard),
        led_notes: or_empty_vec(led_notes),
        to_hid_led: or_empty_pairs(to_hid_led),
        from_hid_led: or_empty_pairs(from_hid_led),
        sysctrl_notes: or_empty_vec(sysctrl_notes),
        to_hid_sysctrl: or_empty_pairs(to_hid_sysctrl),
        from_hid_sysctrl: or_empty_pairs(from_hid_sysctrl),
        consumer_notes: or_empty_vec(consumer_notes),
        to_hid_consumer: or_empty_pairs(to_hid_consumer),
        from_hid_consumer: or_empty_pairs(from_hid_consumer),
        composition: composition_v,
    };
    proof {
        assert(fields_ok(raw@));
        if header_absent(raw@) {
            assert(l.header is None);
        } else {
            assert(l.header is Some);
        }
        assert(l@.header == or_header(spec_header(raw@)));
        assert(spec_decode(raw@) == Option::Some(l@));
    }
    Ok(l)
}

impl core::str::FromStr for Layout {
    type Err = LayoutError;

    /// Decode raw document text, as `decode` does.
    fn from_str(s: &str) -> Result<Layout, LayoutError> {
        decode(s)
    }
}

} // verus!
