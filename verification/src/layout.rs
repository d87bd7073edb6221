//! The structured layout representation and its mathematical model.
//!
//! A `Layout` holds optional scalars, note sequences, and string-keyed
//! mapping fields. Mappings are kept as association lists with unique keys,
//! modelled at the specification level as sequences of key/value pairs over
//! `Seq<char>`.

use vstd::prelude::*;

verus! {

/// Descriptive metadata of a layout. Never merged field by field: a child's
/// header shadows the parent's wholesale.
#[derive(Debug, Clone, PartialEq)]
pub struct Header {
    pub name: Vec<String>,
    pub authors: Vec<String>,
    pub notes: Vec<String>,
    pub locale: Vec<String>,
}

/// Specification-level model of a `Header`.
pub ghost struct HeaderV {
    pub name: Seq<Seq<char>>,
    pub authors: Seq<Seq<char>>,
    pub notes: Seq<Seq<char>>,
    pub locale: Seq<Seq<char>>,
}

/// The central entity: one keyboard-layout document, decoded.
#[derive(Debug, Clone, PartialEq)]
pub struct Layout {
    /// Shallow-merged: present child header wins wholesale.
    pub header: Option<Header>,
    /// Overwrite-if-absent scalar.
    pub hid_locale: Option<String>,
    /// Identifier of the parent layout document, if any.
    pub parent: Option<String>,
    /// Accumulated: child's notes followed by parent's notes.
    pub locale_notes: Vec<String>,
    /// Mapping with unique keys: union on merge, child wins collisions.
    pub to_hid_locale: Vec<(String, String)>,
    pub from_hid_locale: Vec<(String, String)>,
    pub keyboard_notes: Vec<String>,
    pub to_hid_keyboard: Vec<(String, String)>,
    pub from_hid_keyboard: Vec<(String, String)>,
    pub led_notes: Vec<String>,
    pub to_hid_led: Vec<(String, String)>,
    pub from_hid_led: Vec<(String, String)>,
    pub sysctrl_notes: Vec<String>,
    pub to_hid_sysctrl: Vec<(String, String)>,
    pub from_hid_sysctrl: Vec<(String, String)>,
    pub consumer_notes: Vec<String>,
    pub to_hid_consumer: Vec<(String, String)>,
    pub from_hid_consumer: Vec<(String, String)>,
    /// Composition table: key to a sequence of multi-key chords.
    pub composition: Vec<(String, Vec<Vec<String>>)>,
}

/// Specification-level model of a `Layout`.
pub ghost struct LayoutV {
    pub header: Option<HeaderV>,
    pub hid_locale: Option<Seq<char>>,
    pub parent: Option<Seq<char>>,
    pub locale_notes: Seq<Seq<char>>,
    pub to_hid_locale: Seq<(Seq<char>, Seq<char>)>,
    pub from_hid_locale: Seq<(Seq<char>, Seq<char>)>,
    pub keyboard_notes: Seq<Seq<char>>,
    pub to_hid_keyboard: Seq<(Seq<char>, Seq<char>)>,
    pub from_hid_keyboard: Seq<(Seq<char>, Seq<char>)>,
    pub led_notes: Seq<Seq<char>>,
    pub to_hid_led: Seq<(Seq<char>, Seq<char>)>,
    pub from_hid_led: Seq<(Seq<char>, Seq<char>)>,
    pub sysctrl_notes: Seq<Seq<char>>,
    pub to_hid_sysctrl: Seq<(Seq<char>, Seq<char>)>,
    pub from_hid_sysctrl: Seq<(Seq<char>, Seq<char>)>,
    pub consumer_notes: Seq<Seq<char>>,
    pub to_hid_consumer: Seq<(Seq<char>, Seq<char>)>,
    pub from_hid_consumer: Seq<(Seq<char>, Seq<char>)>,
    pub composition: Seq<(Seq<char>, Seq<Seq<Seq<char>>>)>,
}

/// View of a sequence of strings as a sequence of character sequences.
pub open spec fn view_strings(v: Seq<String>) -> Seq<Seq<char>> {
    v.map_values(|s: String| s@)
}

/// View of an optional string.
pub open spec fn view_opt_string(o: Option<String>) -> Option<Seq<char>> {
    match o {
        Option::None => Option::None,
        Option::Some(s) => Option::Some(s@),
    }
}

/// View of a string-to-string association list.
pub open spec fn view_pairs(v: Seq<(String, String)>) -> Seq<(Seq<char>, Seq<char>)> {
    v.map_values(|p: (String, String)| (p.0@, p.1@))
}

/// View of a sequence of chords (each a sequence of strings).
pub open spec fn view_string_table(v: Seq<Vec<String>>) -> Seq<Seq<Seq<char>>> {
    v.map_values(|x: Vec<String>| view_strings(x@))
}

/// View of a composition association list.
pub open spec fn view_comp(v: Seq<(String, Vec<Vec<String>>)>) -> Seq<
    (Seq<char>, Seq<Seq<Seq<char>>>),
> {
    v.map_values(|p: (String, Vec<Vec<String>>)| (p.0@, view_string_table(p.1@)))
}

/// View of an optional header.
pub open spec fn view_opt_header(o: Option<Header>) -> Option<HeaderV> {
    match o {
        Option::None => Option::None,
        Option::Some(h) => Option::Some(h@),
    }
}

impl View for Header {
    type V = HeaderV;

    open spec fn view(&self) -> HeaderV {
        HeaderV {
            name: view_strings(self.name@),
            authors: view_strings(self.authors@),
            notes: view_strings(self.notes@),
            locale: view_strings(self.locale@),
        }
    }
}

impl View for Layout {
    type V = LayoutV;

    open spec fn view(&self) -> LayoutV {
        LayoutV {
            header: view_opt_header(self.header),
            hid_locale: view_opt_string(self.hid_locale),
            parent: view_opt_string(self.parent),
            locale_notes: view_strings(self.locale_notes@),
            to_hid_locale: view_pairs(self.to_hid_locale@),
            from_hid_locale: view_pairs(self.from_hid_locale@),
            keyboard_notes: view_strings(self.keyboard_notes@),
            to_hid_keyboard: view_pairs(self.to_hid_keyboard@),
            from_hid_keyboard: view_pairs(self.from_hid_keyboard@),
            led_notes: view_strings(self.led_notes@),
            to_hid_led: view_pairs(self.to_hid_led@),
            from_hid_led: view_pairs(self.from_hid_led@),
            sysctrl_notes: view_strings(self.sysctrl_notes@),
            to_hid_sysctrl: view_pairs(self.to_hid_sysctrl@),
            from_hid_sysctrl: view_pairs(self.from_hid_sysctrl@),
            consumer_notes: view_strings(self.consumer_notes@),
            to_hid_consumer: view_pairs(self.to_hid_consumer@),
            from_hid_consumer: view_pairs(self.from_hid_consumer@),
            composition: view_comp(self.composition@),
        }
    }
}

/// Keys of an association list are pairwise distinct.
pub open spec fn uniq_keys<V>(s: Seq<(Seq<char>, V)>) -> bool {
    forall|i: int, j: int| 0 <= i < j < s.len() ==> s[i].0 != s[j].0
}

impl LayoutV {
    /// Every mapping field of the layout has unique keys.
    pub open spec fn wf(self) -> bool {
        &&& uniq_keys(self.to_hid_locale)
        &&& uniq_keys(self.from_hid_locale)
        &&& uniq_keys(self.to_hid_keyboard)
        &&& uniq_keys(self.from_hid_keyboard)
        &&& uniq_keys(self.to_hid_led)
        &&& uniq_keys(self.from_hid_led)
        &&& uniq_keys(self.to_hid_sysctrl)
        &&& uniq_keys(self.from_hid_sysctrl)
        &&& uniq_keys(self.to_hid_consumer)
        &&& uniq_keys(self.from_hid_consumer)
        &&& uniq_keys(self.composition)
    }

    /// The default layout: everything absent or empty.
    pub open spec fn empty() -> LayoutV {
        LayoutV {
            header: Option::None,
            hid_locale: Option::None,
            parent: Option::None,
            locale_notes: Seq::empty(),
            to_hid_locale: Seq::empty(),
            from_hid_locale: Seq::empty(),
            keyboard_notes: Seq::empty(),
            to_hid_keyboard: Seq::empty(),
            from_hid_keyboard: Seq::empty(),
            led_notes: Seq::empty(),
            to_hid_led: Seq::empty(),
            from_hid_led: Seq::empty(),
            sysctrl_notes: Seq::empty(),
            to_hid_sysctrl: Seq::empty(),
            from_hid_sysctrl: Seq::empty(),
            consumer_notes: Seq::empty(),
            to_hid_consumer: Seq::empty(),
            from_hid_consumer: Seq::empty(),
            composition: Seq::empty(),
        }
    }
}

impl Default for Layout {
    /// A layout with every field absent or empty.
    fn default() -> (r: Layout)
        ensures
            r@ == LayoutV::empty(),
            r@.wf(),
    {
        let r = Layout {
            header: Option::None,
            hid_locale: Option::None,
            parent: Option::None,
            locale_notes: Vec::new(),
            to_hid_locale: Vec::new(),
            from_hid_locale: Vec::new(),
            keyboard_notes: Vec::new(),
            to_hid_keyboard: Vec::new(),
            from_hid_keyboard: Vec::new(),
            led_notes: Vec::new(),
            to_hid_led: Vec::new(),
            from_hid_led: Vec::new(),
            sysctrl_notes: Vec::new(),
            to_hid_sysctrl: Vec::new(),
            from_hid_sysctrl: Vec::new(),
            consumer_notes: Vec::new(),
            to_hid_consumer: Vec::new(),
            from_hid_consumer: Vec::new(),
            composition: Vec::new(),
        };
        proof {
            assert(view_strings(r.locale_notes@) =~= Seq::<Seq<char>>::empty());
            assert(view_pairs(r.to_hid_locale@) =~= Seq::<(Seq<char>, Seq<char>)>::empty());
            assert(view_comp(r.composition@) =~= Seq::<(Seq<char>, Seq<Seq<Seq<char>>>)>::empty());
        }
        r
    }
}

impl Default for Header {
    /// A header with every field empty.
    fn default() -> (r: Header)
        ensures
            r@.name == Seq::<Seq<char>>::empty(),
            r@.authors == Seq::<Seq<char>>::empty(),
            r@.notes == Seq::<Seq<char>>::empty(),
            r@.locale == Seq::<Seq<char>>::empty(),
    {
        let r = Header {
            name: Vec::new(),
            authors: Vec::new(),
            notes: Vec::new(),
            locale: Vec::new(),
        };
        proof {
            assert(view_strings(r.name@) =~= Seq::<Seq<char>>::empty());
        }
        r
    }
}

} // verus!
