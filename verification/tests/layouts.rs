//! Tests of the merge engine, the decoder, and the resolver session.

use layouts_rs::Header;
use layouts_rs::Layout;
use layouts_rs::LayoutError;
use layouts_rs::Layouts;
use layouts_rs::Resolution;
use layouts_rs::decode;
use layouts_rs::json_identifiers;
use layouts_rs::merge;

fn s(x: &str) -> String {
    x.to_string()
}

fn ss(xs: &[&str]) -> Vec<String> {
    xs.iter().map(|x| x.to_string()).collect()
}

fn pairs(xs: &[(&str, &str)]) -> Vec<(String, String)> {
    xs.iter().map(|(k, v)| (k.to_string(), v.to_string())).collect()
}

fn sample_layout() -> Layout {
    let mut l = Layout::default();
    l.header = Some(Header {
        name: ss(&["Sample"]),
        authors: ss(&["someone"]),
        notes: ss(&[]),
        locale: ss(&["en_US"]),
    });
    l.hid_locale = Some(s("33"));
    l.locale_notes = ss(&["ln1", "ln2"]);
    l.keyboard_notes = ss(&["kn"]);
    l.to_hid_keyboard = pairs(&[("A", "0x04"), ("B", "0x05")]);
    l.from_hid_keyboard = pairs(&[("0x04", "A")]);
    l.composition = vec![(s("AE"), vec![ss(&["A", "E"])])];
    l
}

#[test]
fn merge_with_default_is_identity() {
    let l = sample_layout();
    let merged = merge(&l, &Layout::default());
    assert_eq!(merged, l);
}

#[test]
fn merge_mapping_union_child_wins() {
    let mut child = Layout::default();
    child.to_hid_keyboard = pairs(&[("A", "1"), ("B", "2")]);
    let mut parent = Layout::default();
    parent.to_hid_keyboard = pairs(&[("B", "9"), ("C", "3")]);
    let merged = merge(&child, &parent);
    assert_eq!(
        merged.to_hid_keyboard,
        pairs(&[("A", "1"), ("B", "2"), ("C", "3")])
    );
}

#[test]
fn merge_mapping_absent_in_child_inherits_all() {
    let child = Layout::default();
    let mut parent = Layout::default();
    parent.to_hid_led = pairs(&[("NumLock", "0x01"), ("CapsLock", "0x02")]);
    let merged = merge(&child, &parent);
    assert_eq!(merged.to_hid_led, parent.to_hid_led);
}

#[test]
fn merge_accumulate_concat_order_no_dedup() {
    let mut child = Layout::default();
    child.locale_notes = ss(&["c1", "dup", "c2"]);
    let mut parent = Layout::default();
    parent.locale_notes = ss(&["p1", "dup"]);
    let merged = merge(&child, &parent);
    assert_eq!(merged.locale_notes, ss(&["c1", "dup", "c2", "p1", "dup"]));
    assert_eq!(
        merged.locale_notes.len(),
        child.locale_notes.len() + parent.locale_notes.len()
    );
}

#[test]
fn merge_is_pure() {
    let child = sample_layout();
    let mut parent = sample_layout();
    parent.locale_notes = ss(&["parent note"]);
    let child_before = child.clone();
    let parent_before = parent.clone();
    let _ = merge(&child, &parent);
    assert_eq!(child, child_before);
    assert_eq!(parent, parent_before);
}

#[test]
fn merge_header_shallow() {
    let mut child = Layout::default();
    let mut parent = Layout::default();
    parent.header = Some(Header {
        name: ss(&["parent"]),
        authors: ss(&[]),
        notes: ss(&[]),
        locale: ss(&[]),
    });
    let merged = merge(&child, &parent);
    assert_eq!(merged.header, parent.header);

    child.header = Some(Header {
        name: ss(&["child"]),
        authors: ss(&[]),
        notes: ss(&["child note"]),
        locale: ss(&[]),
    });
    let merged = merge(&child, &parent);
    assert_eq!(merged.header, child.header);
}

#[test]
fn merge_scalar_overwrite_if_absent() {
    let mut child = Layout::default();
    let mut parent = Layout::default();
    parent.hid_locale = Some(s("8"));
    assert_eq!(merge(&child, &parent).hid_locale, Some(s("8")));
    child.hid_locale = Some(s("33"));
    assert_eq!(merge(&child, &parent).hid_locale, Some(s("33")));
}

#[test]
fn merge_composition_union() {
    let mut child = Layout::default();
    child.composition = vec![(s("AE"), vec![ss(&["A", "E"])])];
    let mut parent = Layout::default();
    parent.composition = vec![
        (s("AE"), vec![ss(&["ignored"])]),
        (s("OE"), vec![ss(&["O", "E"])]),
    ];
    let merged = merge(&child, &parent);
    assert_eq!(
        merged.composition,
        vec![
            (s("AE"), vec![ss(&["A", "E"])]),
            (s("OE"), vec![ss(&["O", "E"])]),
        ]
    );
}

#[test]
fn decode_full_document() {
    let raw = r#"{
        "name": ["Test Layout"],
        "authors": ["one", "two"],
        "hid_locale": "33",
        "parent": "base.json",
        "locale_notes": ["a note"],
        "to_hid_keyboard": {"A": "0x04", "B": "0x05"},
        "from_hid_keyboard": {"0x04": "A"},
        "composition": {"AE": [["A", "E"]]}
    }"#;
    let l = decode(raw).unwrap();
    let h = l.header.unwrap();
    assert_eq!(h.name, ss(&["Test Layout"]));
    assert_eq!(h.authors, ss(&["one", "two"]));
    assert_eq!(h.notes, ss(&[]));
    assert_eq!(h.locale, ss(&[]));
    assert_eq!(l.hid_locale, Some(s("33")));
    assert_eq!(l.parent, Some(s("base.json")));
    assert_eq!(l.locale_notes, ss(&["a note"]));
    assert_eq!(l.to_hid_keyboard, pairs(&[("A", "0x04"), ("B", "0x05")]));
    assert_eq!(l.from_hid_keyboard, pairs(&[("0x04", "A")]));
    assert_eq!(l.composition, vec![(s("AE"), vec![ss(&["A", "E"])])]);
    assert_eq!(l.keyboard_notes, ss(&[]));
    assert_eq!(l.to_hid_led, pairs(&[]));
}

#[test]
fn decode_empty_object_gives_defaults() {
    let l = decode("{}").unwrap();
    assert_eq!(l, Layout::default());
}

#[test]
fn decode_rejects_malformed() {
    assert!(matches!(decode("5"), Err(LayoutError::Decode(_))));
    assert!(matches!(decode("[1, 2]"), Err(LayoutError::Decode(_))));
    assert!(matches!(decode("not json at all"), Err(LayoutError::Decode(_))));
    assert!(matches!(
        decode(r#"{"locale_notes": 5}"#),
        Err(LayoutError::Decode(_))
    ));
    assert!(matches!(
        decode(r#"{"to_hid_keyboard": ["not", "a", "map"]}"#),
        Err(LayoutError::Decode(_))
    ));
    assert!(matches!(
        decode(r#"{"hid_locale": 33}"#),
        Err(LayoutError::Decode(_))
    ));
}

#[test]
fn decode_header_present_when_any_field_is() {
    let l = decode(r#"{"name": ["x"]}"#).unwrap();
    let h = l.header.unwrap();
    assert_eq!(h.name, ss(&["x"]));
    assert_eq!(h.authors, ss(&[]));

    let l = decode(r#"{"hid_locale": "1"}"#).unwrap();
    assert!(l.header.is_none());
}

#[test]
fn decode_ignores_unknown_fields() {
    let l = decode(r#"{"unknown_field": {"deep": [1, 2]}}"#).unwrap();
    assert_eq!(l, Layout::default());
}

/// Drive a resolver session against an in-memory store, counting fetches.
fn resolve_loop(
    layouts: &mut Layouts,
    store: &[(&str, &str)],
    name: &str,
    fetches: &mut usize,
) -> Result<Layout, LayoutError> {
    loop {
        match layouts.get_layout(&name.to_string())? {
            Resolution::Resolved(l) => return Ok(l),
            Resolution::Fetch(id) => {
                *fetches += 1;
                match store.iter().find(|(k, _)| *k == id.as_str()) {
                    Some((_, raw)) => layouts.insert_raw(&id, raw)?,
                    None => return Err(LayoutError::NotFound(id)),
                }
            }
        }
    }
}

const STORE: &[(&str, &str)] = &[
    (
        "a.json",
        r#"{"name": ["A"], "locale_notes": ["a"], "to_hid_keyboard": {"K": "from-a"}}"#,
    ),
    (
        "b.json",
        r#"{"parent": "a.json", "name": ["B"], "locale_notes": ["b"]}"#,
    ),
    (
        "c.json",
        r#"{"parent": "b.json", "locale_notes": ["c"], "to_hid_keyboard": {"K": "from-c"}}"#,
    ),
];

#[test]
fn three_level_inheritance() {
    let mut layouts = Layouts::new();
    let mut fetches = 0;
    let l = resolve_loop(&mut layouts, STORE, "c.json", &mut fetches).unwrap();
    assert_eq!(l.locale_notes, ss(&["c", "b", "a"]));
    // the nearest ancestor that declares a header wins: C has none, B does
    assert_eq!(l.header.unwrap().name, ss(&["B"]));
    // the child's mapping entry wins over the root's on the shared key
    assert_eq!(l.to_hid_keyboard, pairs(&[("K", "from-c")]));
    assert_eq!(fetches, 3);
}

#[test]
fn cache_fetches_each_document_once() {
    let mut layouts = Layouts::new();
    let mut fetches = 0;
    let first = resolve_loop(&mut layouts, STORE, "c.json", &mut fetches).unwrap();
    assert_eq!(fetches, 3);
    let second = resolve_loop(&mut layouts, STORE, "c.json", &mut fetches).unwrap();
    assert_eq!(fetches, 3);
    assert_eq!(first, second);
    resolve_loop(&mut layouts, STORE, "a.json", &mut fetches).unwrap();
    assert_eq!(fetches, 3);
}

#[test]
fn unknown_identifier_is_not_found() {
    let mut layouts = Layouts::new();
    let mut fetches = 0;
    let r = resolve_loop(&mut layouts, STORE, "missing.json", &mut fetches);
    assert!(matches!(r, Err(LayoutError::NotFound(id)) if id == "missing.json"));
}

#[test]
fn cyclic_parent_chain_is_rejected() {
    let store: &[(&str, &str)] = &[
        ("x.json", r#"{"parent": "y.json"}"#),
        ("y.json", r#"{"parent": "x.json"}"#),
        ("self.json", r#"{"parent": "self.json"}"#),
    ];
    let mut layouts = Layouts::new();
    let mut fetches = 0;
    let r = resolve_loop(&mut layouts, store, "x.json", &mut fetches);
    assert!(matches!(r, Err(LayoutError::CyclicParent(_))));
    let r = resolve_loop(&mut layouts, store, "self.json", &mut fetches);
    assert!(matches!(r, Err(LayoutError::CyclicParent(id)) if id == "self.json"));
}

#[test]
fn listing_is_stable_for_the_session() {
    let mut layouts = Layouts::new();
    assert!(layouts.list_layouts().is_none());
    layouts.provide_list(ss(&["a.json", "b.json"]));
    assert_eq!(layouts.list_layouts().unwrap(), ss(&["a.json", "b.json"]));
    // the underlying source changing does not disturb the cached list
    layouts.provide_list(ss(&["z.json"]));
    assert_eq!(layouts.list_layouts().unwrap(), ss(&["a.json", "b.json"]));
    // nor does resolving layouts in between
    let mut fetches = 0;
    resolve_loop(&mut layouts, STORE, "a.json", &mut fetches).unwrap();
    assert_eq!(layouts.list_layouts().unwrap(), ss(&["a.json", "b.json"]));
    assert_eq!(layouts.list_layouts().unwrap(), layouts.list_layouts().unwrap());
}

#[test]
fn decode_error_propagates() {
    let store: &[(&str, &str)] = &[("bad.json", "this is not json")];
    let mut layouts = Layouts::new();
    let mut fetches = 0;
    let r = resolve_loop(&mut layouts, store, "bad.json", &mut fetches);
    assert!(matches!(r, Err(LayoutError::Decode(_))));
}

#[test]
fn from_str_decodes_like_decode() {
    let l: Layout = r#"{"locale_notes": ["n"]}"#.parse().unwrap();
    assert_eq!(l.locale_notes, ss(&["n"]));
    let r: Result<Layout, LayoutError> = "[]".parse();
    assert!(matches!(r, Err(LayoutError::Decode(_))));
}

#[test]
fn json_identifiers_keeps_only_json_names() {
    let names = ss(&["keyboards/en_US.json", "README.md", "leds/led.json", "json", ".json"]);
    assert_eq!(
        json_identifiers(&names),
        ss(&["keyboards/en_US.json", "leds/led.json", ".json"])
    );
}
