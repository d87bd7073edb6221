//! The field-level merge engine: combines a child layout with its resolved
//! parent, honouring per-field merge policy.
//!
//! Policies:
//! - overwrite-if-absent for optional scalars: the child's value if present,
//!   else the parent's;
//! - union for mapping fields: every parent entry whose key the child does
//!   not mention is appended after the child's entries;
//! - accumulation for note sequences: the child's notes followed by the
//!   parent's, order kept, nothing deduplicated;
//! - shallow for the header: a present child header shadows the parent's.
//!
//! The merge is a pure value transform: it borrows both inputs and builds a
//! fresh layout.

use vstd::prelude::*;

use crate::layout::Header;
use crate::layout::HeaderV;
use crate::layout::Layout;
use crate::layout::LayoutV;
use crate::layout::uniq_keys;
use crate::layout::view_comp;
use crate::layout::view_opt_header;
use crate::layout::view_opt_string;
use crate::layout::view_pairs;
use crate::layout::view_string_table;
use crate::layout::view_strings;

verus! {

/// Overwrite-if-absent policy on optional values.
pub open spec fn merge_opt<T>(c: Option<T>, p: Option<T>) -> Option<T> {
    if c is Some {
        c
    } else {
        p
    }
}

/// The set of keys of an association list.
pub open spec fn key_set<V>(s: Seq<(Seq<char>, V)>) -> Set<Seq<char>> {
    s.map_values(|e: (Seq<char>, V)| e.0).to_set()
}

/// The entries of `p` whose keys are not in `ck`, in their original order.
pub open spec fn keep_missing<V>(p: Seq<(Seq<char>, V)>, ck: Set<Seq<char>>) -> Seq<
    (Seq<char>, V),
>
    decreases p.len(),
{
    if p.len() == 0 {
        p
    } else {
        let rest = keep_missing(p.drop_last(), ck);
        if ck.contains(p.last().0) {
            rest
        } else {
            rest.push(p.last())
        }
    }
}

/// Union of two association lists: the child's entries, then every parent
/// entry whose key the child does not mention.
pub open spec fn merge_entries<V>(c: Seq<(Seq<char>, V)>, p: Seq<(Seq<char>, V)>) -> Seq<
    (Seq<char>, V),
> {
    c + keep_missing(p, key_set(c))
}

/// The mapping an association list denotes.
pub open spec fn map_of<V>(s: Seq<(Seq<char>, V)>) -> Map<Seq<char>, V>
    decreases s.len(),
{
    if s.len() == 0 {
        Map::empty()
    } else {
        map_of(s.drop_last()).insert(s.last().0, s.last().1)
    }
}

/// The merge of two layout models, field by field.
pub open spec fn merge_layouts(c: LayoutV, p: LayoutV) -> LayoutV {
    LayoutV {
        header: merge_opt(c.header, p.header),
        hid_locale: merge_opt(c.hid_locale, p.hid_locale),
        parent: merge_opt(c.parent, p.parent),
        locale_notes: c.locale_notes + p.locale_notes,
        to_hid_locale: merge_entries(c.to_hid_locale, p.to_hid_locale),
        from_hid_locale: merge_entries(c.from_hid_locale, p.from_hid_locale),
        keyboard_notes: c.keyboard_notes + p.keyboard_notes,
        to_hid_keyboard: merge_entries(c.to_hid_keyboard, p.to_hid_keyboard),
        from_hid_keyboard: merge_entries(c.from_hid_keyboard, p.from_hid_keyboard),
        led_notes: c.led_notes + p.led_notes,
        to_hid_led: merge_entries(c.to_hid_led, p.to_hid_led),
        from_hid_led: merge_entries(c.from_hid_led, p.from_hid_led),
        sysctrl_notes: c.sysctrl_notes + p.sysctrl_notes,
        to_hid_sysctrl: merge_entries(c.to_hid_sysctrl, p.to_hid_sysctrl),
        from_hid_sysctrl: merge_entries(c.from_hid_sysctrl, p.from_hid_sysctrl),
        consumer_notes: c.consumer_notes + p.consumer_notes,
        to_hid_consumer: merge_entries(c.to_hid_consumer, p.to_hid_consumer),
        from_hid_consumer: merge_entries(c.from_hid_consumer, p.from_hid_consumer),
        composition: merge_entries(c.composition, p.composition),
    }
}

/// A key is in `key_set` exactly when some entry carries it.
pub proof fn lemma_key_set<V>(s: Seq<(Seq<char>, V)>, k: Seq<char>)
    ensures
        key_set(s).contains(k) <==> exists|i: int| 0 <= i < s.len() && s[i].0 == k,
{
    let keys = s.map_values(|e: (Seq<char>, V)| e.0);
    if key_set(s).contains(k) {
        let i = choose|i: int| 0 <= i < keys.len() && keys[i] == k;
        assert(s[i].0 == k);
    }
    if exists|i: int| 0 <= i < s.len() && s[i].0 == k {
        let i = choose|i: int| 0 <= i < s.len() && s[i].0 == k;
        assert(keys[i] == k);
        assert(keys.contains(k));
    }
}

/// Clone a vector of strings; the result holds equal strings.
pub fn clone_strings(v: &Vec<String>) -> (r: Vec<String>)
    ensures
        r@ == v@,
{
    let mut r: Vec<String> = Vec::new();
    let mut i: usize = 0;
    while i < v.len()
        invariant
            i <= v.len(),
            r@ == v@.take(i as int),
        decreases v.len() - i,
    {
        r.push(v[i].clone());
        proof {
            assert(v@.take(i + 1 as int) =~= v@.take(i as int).push(v@[i as int]));
        }
        i += 1;
    }
    proof {
        assert(v@.take(v@.len() as int) =~= v@);
    }
    r
}

/// Clone an optional string.
pub fn clone_opt_string(o: &Option<String>) -> (r: Option<String>)
    ensures
        r == *o,
{
    match o {
        Option::None => Option::None,
        Option::Some(s) => Option::Some(s.clone()),
    }
}

/// Clone an optional header.
pub fn clone_opt_header(o: &Option<Header>) -> (r: Option<Header>)
    ensures
        view_opt_header(r) == view_opt_header(*o),
{
    match o {
        Option::None => Option::None,
        Option::Some(h) => Option::Some(
            Header {
                name: clone_strings(&h.name),
                authors: clone_strings(&h.authors),
                notes: clone_strings(&h.notes),
                locale: clone_strings(&h.locale),
            },
        ),
    }
}

/// Clone a string-to-string association list; the result holds equal pairs.
pub fn clone_pairs(v: &Vec<(String, String)>) -> (r: Vec<(String, String)>)
    ensures
        r@ == v@,
{
    let mut r: Vec<(String, String)> = Vec::new();
    let mut i: usize = 0;
    while i < v.len()
        invariant
            i <= v.len(),
            r@ == v@.take(i as int),
        decreases v.len() - i,
    {
        r.push((v[i].0.clone(), v[i].1.clone()));
        proof {
            assert(v@.take(i + 1 as int) =~= v@.take(i as int).push(v@[i as int]));
        }
        i += 1;
    }
    proof {
        assert(v@.take(v@.len() as int) =~= v@);
    }
    r
}

/// Clone a sequence of chords.
pub fn clone_string_table(v: &Vec<Vec<String>>) -> (r: Vec<Vec<String>>)
    ensures
        view_string_table(r@) == view_string_table(v@),
{
    let mut r: Vec<Vec<String>> = Vec::new();
    let mut i: usize = 0;
    while i < v.len()
        invariant
            i <= v.len(),
            view_string_table(r@) == view_string_table(v@.take(i as int)),
        decreases v.len() - i,
    {
        r.push(clone_strings(&v[i]));
        proof {
            assert(view_string_table(v@.take(i + 1 as int)) =~= view_string_table(
                v@.take(i as int),
            ).push(view_strings(v@[i as int]@)));
            assert(view_string_table(r@) =~= view_string_table(v@.take(i + 1 as int)));
        }
        i += 1;
    }
    proof {
        assert(v@.take(v@.len() as int) =~= v@);
    }
    r
}

/// Clone a composition association list.
pub fn clone_comp(v: &Vec<(String, Vec<Vec<String>>)>) -> (r: Vec<(String, Vec<Vec<String>>)>)
    ensures
        view_comp(r@) == view_comp(v@),
{
    let mut r: Vec<(String, Vec<Vec<String>>)> = Vec::new();
    let mut i: usize = 0;
    while i < v.len()
        invariant
            i <= v.len(),
            view_comp(r@) == view_comp(v@.take(i as int)),
        decreases v.len() - i,
    {
        r.push((v[i].0.clone(), clone_string_table(&v[i].1)));
        proof {
            assert(view_comp(v@.take(i + 1 as int)) =~= view_comp(v@.take(i as int)).push(
                (v@[i as int].0@, view_string_table(v@[i as int].1@)),
            ));
            assert(view_comp(r@) =~= view_comp(v@.take(i + 1 as int)));
        }
        i += 1;
    }
    proof {
        assert(v@.take(v@.len() as int) =~= v@);
    }
    r
}

/// Whether the association list holds the key.
pub fn has_key(v: &Vec<(String, String)>, k: &String) -> (r: bool)
    ensures
        r == key_set(view_pairs(v@)).contains(k@),
{
    let mut i: usize = 0;
    let mut found = false;
    while i < v.len()
        invariant
            i <= v.len(),
            found <==> exists|j: int| 0 <= j < i && view_pairs(v@)[j].0 == k@,
        decreases v.len() - i,
    {
        if !found && v[i].0 == *k {
            found = true;
            proof {
                assert(view_pairs(v@)[i as int].0 == k@);
            }
        }
        i += 1;
    }
    proof {
        lemma_key_set(view_pairs(v@), k@);
    }
    found
}

/// Whether the composition association list holds the key.
pub fn has_key_comp(v: &Vec<(String, Vec<Vec<String>>)>, k: &String) -> (r: bool)
    ensures
        r == key_set(view_comp(v@)).contains(k@),
{
    let mut i: usize = 0;
    let mut found = false;
    while i < v.len()
        invariant
            i <= v.len(),
            found <==> exists|j: int| 0 <= j < i && view_comp(v@)[j].0 == k@,
        decreases v.len() - i,
    {
        if !found && v[i].0 == *k {
            found = true;
            proof {
                assert(view_comp(v@)[i as int].0 == k@);
            }
        }
        i += 1;
    }
    proof {
        lemma_key_set(view_comp(v@), k@);
    }
    found
}

/// Union of two string mappings: the child's entries, then the parent's
/// entries under keys the child does not mention.
pub fn merge_string_map(c: &Vec<(String, String)>, p: &Vec<(String, String)>) -> (r: Vec<
    (String, String),
>)
    ensures
        view_pairs(r@) == merge_entries(view_pairs(c@), view_pairs(p@)),
{
    let ghost cv = view_pairs(c@);
    let ghost pv = view_pairs(p@);
    let mut r = clone_pairs(c);
    let mut i: usize = 0;
    while i < p.len()
        invariant
            i <= p.len(),
            cv == view_pairs(c@),
            pv == view_pairs(p@),
            view_pairs(r@) == cv + keep_missing(pv.take(i as int), key_set(cv)),
        decreases p.len() - i,
    {
        proof {
            assert(pv.take(i + 1 as int).drop_last() =~= pv.take(i as int));
            assert(pv.take(i + 1 as int).last() == pv[i as int]);
            assert(pv[i as int] == (p@[i as int].0@, p@[i as int].1@));
        }
        if !has_key(c, &p[i].0) {
            let ghost prev = r@;
            r.push((p[i].0.clone(), p[i].1.clone()));
            proof {
                assert(keep_missing(pv.take(i + 1 as int), key_set(cv)) == keep_missing(
                    pv.take(i as int),
                    key_set(cv),
                ).push(pv[i as int]));
                assert(view_pairs(r@) =~= view_pairs(prev).push(pv[i as int]));
                assert(view_pairs(prev).push(pv[i as int]) =~= cv + keep_missing(
                    pv.take(i + 1 as int),
                    key_set(cv),
                ));
            }
        } else {
            proof {
                assert(keep_missing(pv.take(i + 1 as int), key_set(cv)) == keep_missing(
                    pv.take(i as int),
                    key_set(cv),
                ));
            }
        }
        i += 1;
    }
    proof {
        assert(pv.take(pv.len() as int) =~= pv);
        assert(cv + keep_missing(pv.take(0), key_set(cv)) =~= cv);
    }
    r
}

/// Union of two composition mappings, child entries first.
pub fn merge_composition(c: &Vec<(String, Vec<Vec<String>>)>, p: &Vec<(String, Vec<Vec<String>>)>)
    -> (r: Vec<(String, Vec<Vec<String>>)>)
    ensures
        view_comp(r@) == merge_entries(view_comp(c@), view_comp(p@)),
{
    let ghost cv = view_comp(c@);
    let ghost pv = view_comp(p@);
    let mut r = clone_comp(c);
    let mut i: usize = 0;
    while i < p.len()
        invariant
            i <= p.len(),
            cv == view_comp(c@),
            pv == view_comp(p@),
            view_comp(r@) == cv + keep_missing(pv.take(i as int), key_set(cv)),
        decreases p.len() - i,
    {
        proof {
            assert(pv.take(i + 1 as int).drop_last() =~= pv.take(i as int));
            assert(pv.take(i + 1 as int).last() == pv[i as int]);
            assert(pv[i as int] == (p@[i as int].0@, view_string_table(p@[i as int].1@)));
        }
        if !has_key_comp(c, &p[i].0) {
            let ghost prev = r@;
            r.push((p[i].0.clone(), clone_string_table(&p[i].1)));
            proof {
                assert(keep_missing(pv.take(i + 1 as int), key_set(cv)) == keep_missing(
                    pv.take(i as int),
                    key_set(cv),
                ).push(pv[i as int]));
                assert(view_comp(r@) =~= view_comp(prev).push(pv[i as int]));
                assert(view_comp(prev).push(pv[i as int]) =~= cv + keep_missing(
                    pv.take(i + 1 as int),
                    key_set(cv),
                ));
            }
        } else {
            proof {
                assert(keep_missing(pv.take(i + 1 as int), key_set(cv)) == keep_missing(
                    pv.take(i as int),
                    key_set(cv),
                ));
            }
        }
        i += 1;
    }
    proof {
        assert(pv.take(pv.len() as int) =~= pv);
        assert(cv + keep_missing(pv.take(0), key_set(cv)) =~= cv);
    }
    r
}

/// Child's notes followed by the parent's notes.
pub fn concat_notes(c: &Vec<String>, p: &Vec<String>) -> (r: Vec<String>)
    ensures
        r@ == c@ + p@,
{
    let mut r = clone_strings(c);
    let mut i: usize = 0;
    while i < p.len()
        invariant
            i <= p.len(),
            r@ == c@ + p@.take(i as int),
        decreases p.len() - i,
    {
        r.push(p[i].clone());
        proof {
            assert(c@ + p@.take(i + 1 as int) =~= (c@ + p@.take(i as int)).push(p@[i as int]));
        }
        i += 1;
    }
    proof {
        assert(p@.take(p@.len() as int) =~= p@);
        assert(c@ + p@.take(0) =~= c@);
    }
    r
}

/// Every entry kept by `keep_missing` is an entry of `p` whose key avoids
/// `ck`; keys stay unique.
pub proof fn lemma_keep_missing<V>(p: Seq<(Seq<char>, V)>, ck: Set<Seq<char>>)
    ensures
        forall|i: int|
            0 <= i < keep_missing(p, ck).len() ==> !ck.contains(
                (#[trigger] keep_missing(p, ck)[i]).0,
            ),
        forall|i: int|
            0 <= i < keep_missing(p, ck).len() ==> exists|j: int|
                0 <= j < p.len() && p[j] == #[trigger] keep_missing(p, ck)[i],
        uniq_keys(p) ==> uniq_keys(keep_missing(p, ck)),
    decreases p.len(),
{
    if p.len() > 0 {
        let rest = keep_missing(p.drop_last(), ck);
        lemma_keep_missing(p.drop_last(), ck);
        assert(forall|j: int|
            0 <= j < p.drop_last().len() ==> p.drop_last()[j] == p[j]);
        if !ck.contains(p.last().0) {
            assert(keep_missing(p, ck) == rest.push(p.last()));
            assert(forall|i: int|
                0 <= i < rest.len() ==> keep_missing(p, ck)[i] == rest[i]);
            assert(keep_missing(p, ck)[rest.len() as int] == p.last());
            assert(p[p.len() - 1] == p.last());
            if uniq_keys(p) {
                assert forall|i: int, j: int|
                    0 <= i < j < keep_missing(p, ck).len() implies keep_missing(p, ck)[i].0
                    != keep_missing(p, ck)[j].0 by {
                    if j < rest.len() {
                        assert(uniq_keys(rest));
                    } else {
                        let wi = choose|w: int|
                            0 <= w < p.drop_last().len() && p.drop_last()[w] == rest[i];
                        assert(p[wi] == rest[i]);
                        assert(p[wi].0 != p[p.len() - 1].0);
                    }
                }
            }
        }
    }
}

/// The merged entries of two well-formed mappings have unique keys.
pub proof fn lemma_merge_entries_uniq<V>(c: Seq<(Seq<char>, V)>, p: Seq<(Seq<char>, V)>)
    requires
        uniq_keys(c),
        uniq_keys(p),
    ensures
        uniq_keys(merge_entries(c, p)),
{
    let ck = key_set(c);
    let km = keep_missing(p, ck);
    let m = merge_entries(c, p);
    lemma_keep_missing(p, ck);
    assert forall|i: int, j: int| 0 <= i < j < m.len() implies m[i].0 != m[j].0 by {
        if j < c.len() {
        } else if i >= c.len() {
            assert(m[i] == km[i - c.len()]);
            assert(m[j] == km[j - c.len()]);
            assert(uniq_keys(km));
        } else {
            assert(m[i] == c[i]);
            assert(m[j] == km[j - c.len()]);
            assert(!ck.contains(km[j - c.len()].0));
            lemma_key_set(c, c[i].0);
            assert(ck.contains(c[i].0));
        }
    }
}

/// A key is in the denoted mapping exactly when some entry carries it.
pub proof fn lemma_map_of_contains<V>(s: Seq<(Seq<char>, V)>, k: Seq<char>)
    ensures
        map_of(s).contains_key(k) <==> exists|i: int| 0 <= i < s.len() && s[i].0 == k,
    decreases s.len(),
{
    if s.len() > 0 {
        lemma_map_of_contains(s.drop_last(), k);
        if map_of(s).contains_key(k) {
            if s.last().0 != k {
                let i = choose|i: int| 0 <= i < s.drop_last().len() && s.drop_last()[i].0 == k;
                assert(s[i].0 == k);
            } else {
                assert(s[s.len() - 1].0 == k);
            }
        }
        if exists|i: int| 0 <= i < s.len() && s[i].0 == k {
            let i = choose|i: int| 0 <= i < s.len() && s[i].0 == k;
            if i < s.len() - 1 {
                assert(s.drop_last()[i].0 == k);
            }
        }
    }
}

/// In a list with unique keys, each entry gives the value the denoted
/// mapping assigns to its key.
pub proof fn lemma_map_of_value<V>(s: Seq<(Seq<char>, V)>, i: int)
    requires
        uniq_keys(s),
        0 <= i < s.len(),
    ensures
        map_of(s).contains_key(s[i].0),
        map_of(s)[s[i].0] == s[i].1,
    decreases s.len(),
{
    if i == s.len() - 1 {
    } else {
        assert(forall|j: int| 0 <= j < s.drop_last().len() ==> s.drop_last()[j] == s[j]);
        lemma_map_of_value(s.drop_last(), i);
        assert(s[i].0 != s.last().0);
    }
}

/// A list with unique keys denotes a mapping with exactly one key per
/// entry.
pub proof fn lemma_map_of_len<V>(s: Seq<(Seq<char>, V)>)
    requires
        uniq_keys(s),
    ensures
        map_of(s).dom().finite(),
        map_of(s).dom().len() == s.len(),
    decreases s.len(),
{
    if s.len() == 0 {
        assert(map_of(s).dom() =~= Set::<Seq<char>>::empty());
    } else {
        assert(forall|j: int| 0 <= j < s.drop_last().len() ==> s.drop_last()[j] == s[j]);
        lemma_map_of_len(s.drop_last());
        lemma_map_of_contains(s.drop_last(), s.last().0);
        assert(!map_of(s.drop_last()).contains_key(s.last().0));
        assert(map_of(s).dom() =~= map_of(s.drop_last()).dom().insert(s.last().0));
    }
}

/// Mapping union correctness: the merged mapping holds every key of either
/// input; on a key the child holds, the child's value wins; a key only the
/// parent holds keeps the parent's value unchanged.
pub proof fn lemma_merge_entries_map<V>(c: Seq<(Seq<char>, V)>, p: Seq<(Seq<char>, V)>)
    requires
        uniq_keys(c),
        uniq_keys(p),
    ensures
        forall|k: Seq<char>|
            map_of(merge_entries(c, p)).contains_key(k) <==> map_of(c).contains_key(k) || map_of(
                p,
            ).contains_key(k),
        forall|k: Seq<char>|
            map_of(c).contains_key(k) ==> map_of(merge_entries(c, p))[k] == map_of(c)[k],
        forall|k: Seq<char>|
            !map_of(c).contains_key(k) && map_of(p).contains_key(k) ==> map_of(
                merge_entries(c, p),
            )[k] == map_of(p)[k],
{
    let ck = key_set(c);
    let km = keep_missing(p, ck);
    let m = merge_entries(c, p);
    lemma_keep_missing(p, ck);
    lemma_merge_entries_uniq(c, p);
    assert forall|k: Seq<char>|
        map_of(m).contains_key(k) <==> map_of(c).contains_key(k) || map_of(p).contains_key(
            k,
        ) by {
        lemma_map_of_contains(m, k);
        lemma_map_of_contains(c, k);
        lemma_map_of_contains(p, k);
        lemma_key_set(c, k);
        if map_of(m).contains_key(k) {
            let i = choose|i: int| 0 <= i < m.len() && m[i].0 == k;
            if i < c.len() {
                assert(c[i].0 == k);
            } else {
                let j = choose|j: int| 0 <= j < p.len() && p[j] == km[i - c.len()];
                assert(p[j].0 == k);
            }
        }
        if map_of(c).contains_key(k) {
            let i = choose|i: int| 0 <= i < c.len() && c[i].0 == k;
            assert(m[i].0 == k);
        }
        if map_of(p).contains_key(k) && !map_of(c).contains_key(k) {
            let i = choose|i: int| 0 <= i < p.len() && p[i].0 == k;
            assert(p.take(i + 1).drop_last() =~= p.take(i));
            lemma_keep_missing_has(p, ck, i);
            let j = choose|j: int| 0 <= j < km.len() && km[j] == p[i];
            assert(m[c.len() + j].0 == k);
        }
    }
    assert forall|k: Seq<char>|
        map_of(c).contains_key(k) implies map_of(m)[k] == map_of(c)[k] by {
        lemma_map_of_contains(c, k);
        let i = choose|i: int| 0 <= i < c.len() && c[i].0 == k;
        lemma_map_of_value(c, i);
        assert(m[i] == c[i]);
        lemma_map_of_value(m, i);
    }
    assert forall|k: Seq<char>|
        !map_of(c).contains_key(k) && map_of(p).contains_key(k) implies map_of(m)[k] == map_of(
        p,
    )[k] by {
        lemma_map_of_contains(c, k);
        lemma_map_of_contains(p, k);
        lemma_key_set(c, k);
        let i = choose|i: int| 0 <= i < p.len() && p[i].0 == k;
        lemma_map_of_value(p, i);
        lemma_keep_missing_has(p, ck, i);
        let j = choose|j: int| 0 <= j < km.len() && km[j] == p[i];
        assert(m[c.len() + j] == p[i]);
        lemma_map_of_value(m, c.len() + j);
    }
}

/// An entry of `p` whose key avoids `ck` is kept by `keep_missing`.
pub proof fn lemma_keep_missing_has<V>(p: Seq<(Seq<char>, V)>, ck: Set<Seq<char>>, i: int)
    requires
        0 <= i < p.len(),
        !ck.contains(p[i].0),
    ensures
        exists|j: int| 0 <= j < keep_missing(p, ck).len() && keep_missing(p, ck)[j] == p[i],
    decreases p.len(),
{
    let km = keep_missing(p, ck);
    let rest = keep_missing(p.drop_last(), ck);
    if i == p.len() - 1 {
        assert(p.last() == p[i]);
        assert(km[km.len() - 1] == p[i]);
    } else {
        assert(p.drop_last()[i] == p[i]);
        lemma_keep_missing_has(p.drop_last(), ck, i);
        let j = choose|j: int| 0 <= j < rest.len() && rest[j] == p[i];
        assert(km[j] == p[i]);
    }
}

/// The mapping `m` is the union of `c` and `p` with `c` taking priority:
/// every key of either survives, a key `c` holds keeps `c`'s value, and a
/// key only `p` holds keeps `p`'s value unchanged.
pub open spec fn union_correct<V>(
    c: Seq<(Seq<char>, V)>,
    p: Seq<(Seq<char>, V)>,
    m: Seq<(Seq<char>, V)>,
) -> bool {
    &&& forall|k: Seq<char>|
        map_of(m).contains_key(k) <==> map_of(c).contains_key(k) || map_of(p).contains_key(k)
    &&& forall|k: Seq<char>|
        map_of(c).contains_key(k) ==> map_of(m)[k] == map_of(c)[k]
    &&& forall|k: Seq<char>|
        !map_of(c).contains_key(k) && map_of(p).contains_key(k) ==> map_of(m)[k] == map_of(p)[k]
}

/// Mapping union correctness, for every mapping field of the merged
/// layout.
pub proof fn lemma_merge_mapping_union(c: LayoutV, p: LayoutV)
    requires
        c.wf(),
        p.wf(),
    ensures
        union_correct(c.to_hid_locale, p.to_hid_locale, merge_layouts(c, p).to_hid_locale),
        union_correct(c.from_hid_locale, p.from_hid_locale, merge_layouts(c, p).from_hid_locale),
        union_correct(c.to_hid_keyboard, p.to_hid_keyboard, merge_layouts(c, p).to_hid_keyboard),
        union_correct(
            c.from_hid_keyboard,
            p.from_hid_keyboard,
            merge_layouts(c, p).from_hid_keyboard,
        ),
        union_correct(c.to_hid_led, p.to_hid_led, merge_layouts(c, p).to_hid_led),
        union_correct(c.from_hid_led, p.from_hid_led, merge_layouts(c, p).from_hid_led),
        union_correct(c.to_hid_sysctrl, p.to_hid_sysctrl, merge_layouts(c, p).to_hid_sysctrl),
        union_correct(
            c.from_hid_sysctrl,
            p.from_hid_sysctrl,
            merge_layouts(c, p).from_hid_sysctrl,
        ),
        union_correct(c.to_hid_consumer, p.to_hid_consumer, merge_layouts(c, p).to_hid_consumer),
        union_correct(
            c.from_hid_consumer,
            p.from_hid_consumer,
            merge_layouts(c, p).from_hid_consumer,
        ),
        union_correct(c.composition, p.composition, merge_layouts(c, p).composition),
{
    lemma_merge_entries_map(c.to_hid_locale, p.to_hid_locale);
    lemma_merge_entries_map(c.from_hid_locale, p.from_hid_locale);
    lemma_merge_entries_map(c.to_hid_keyboard, p.to_hid_keyboard);
    lemma_merge_entries_map(c.from_hid_keyboard, p.from_hid_keyboard);
    lemma_merge_entries_map(c.to_hid_led, p.to_hid_led);
    lemma_merge_entries_map(c.from_hid_led, p.from_hid_led);
    lemma_merge_entries_map(c.to_hid_sysctrl, p.to_hid_sysctrl);
    lemma_merge_entries_map(c.from_hid_sysctrl, p.from_hid_sysctrl);
    lemma_merge_entries_map(c.to_hid_consumer, p.to_hid_consumer);
    lemma_merge_entries_map(c.from_hid_consumer, p.from_hid_consumer);
    lemma_merge_entries_map(c.composition, p.composition);
}

/// Idempotence against the default layout: merging any layout over the
/// empty layout gives the layout back unchanged, field by field.
pub proof fn lemma_merge_empty(l: LayoutV)
    ensures
        merge_layouts(l, LayoutV::empty()) == l,
{
    let e = LayoutV::empty();
    let m = merge_layouts(l, e);
    assert(m.locale_notes =~= l.locale_notes);
    assert(m.keyboard_notes =~= l.keyboard_notes);
    assert(m.led_notes =~= l.led_notes);
    assert(m.sysctrl_notes =~= l.sysctrl_notes);
    assert(m.consumer_notes =~= l.consumer_notes);
    assert(m.to_hid_locale =~= l.to_hid_locale);
    assert(m.from_hid_locale =~= l.from_hid_locale);
    assert(m.to_hid_keyboard =~= l.to_hid_keyboard);
    assert(m.from_hid_keyboard =~= l.from_hid_keyboard);
    assert(m.to_hid_led =~= l.to_hid_led);
    assert(m.from_hid_led =~= l.from_hid_led);
    assert(m.to_hid_sysctrl =~= l.to_hid_sysctrl);
    assert(m.from_hid_sysctrl =~= l.from_hid_sysctrl);
    assert(m.to_hid_consumer =~= l.to_hid_consumer);
    assert(m.from_hid_consumer =~= l.from_hid_consumer);
    assert(m.composition =~= l.composition);
}

/// Accumulate concatenation order: each note field of the merged layout is
/// exactly the child's notes followed by the parent's notes, in their
/// original relative order, nothing deduplicated.
pub proof fn lemma_accumulate_order(c: LayoutV, p: LayoutV)
    ensures
        merge_layouts(c, p).locale_notes.len() == c.locale_notes.len() + p.locale_notes.len(),
        forall|i: int|
            0 <= i < c.locale_notes.len() ==> merge_layouts(c, p).locale_notes[i]
                == c.locale_notes[i],
        forall|i: int|
            0 <= i < p.locale_notes.len() ==> merge_layouts(c, p).locale_notes[c.locale_notes.len()
                + i] == p.locale_notes[i],
        merge_layouts(c, p).keyboard_notes == c.keyboard_notes + p.keyboard_notes,
        merge_layouts(c, p).led_notes == c.led_notes + p.led_notes,
        merge_layouts(c, p).sysctrl_notes == c.sysctrl_notes + p.sysctrl_notes,
        merge_layouts(c, p).consumer_notes == c.consumer_notes + p.consumer_notes,
{
}

/// A fresh copy of a layout, equal to the original at the model level.
pub fn duplicate(l: &Layout) -> (r: Layout)
    ensures
        r@ == l@,
{
    Layout {
        header: clone_opt_header(&l.header),
        hid_locale: clone_opt_string(&l.hid_locale),
        parent: clone_opt_string(&l.parent),
        locale_notes: clone_strings(&l.locale_notes),
        to_hid_locale: clone_pairs(&l.to_hid_locale),
        from_hid_locale: clone_pairs(&l.from_hid_locale),
        keyboard_notes: clone_strings(&l.keyboard_notes),
        to_hid_keyboard: clone_pairs(&l.to_hid_keyboard),
        from_hid_keyboard: clone_pairs(&l.from_hid_keyboard),
        led_notes: clone_strings(&l.led_notes),
        to_hid_led: clone_pairs(&l.to_hid_led),
        from_hid_led: clone_pairs(&l.from_hid_led),
        sysctrl_notes: clone_strings(&l.sysctrl_notes),
        to_hid_sysctrl: clone_pairs(&l.to_hid_sysctrl),
        from_hid_sysctrl: clone_pairs(&l.from_hid_sysctrl),
        consumer_notes: clone_strings(&l.consumer_notes),
        to_hid_consumer: clone_pairs(&l.to_hid_consumer),
        from_hid_consumer: clone_pairs(&l.from_hid_consumer),
        composition: clone_comp(&l.composition),
    }
}

/// Merge a child layout over its resolved parent. Pure: both inputs are only
/// read; the result is a fresh value.
pub fn merge(child: &Layout, parent: &Layout) -> (r: Layout)
    ensures
        r@ == merge_layouts(child@, parent@),
        child@.wf() && parent@.wf() ==> r@.wf(),
{
    let r = Layout {
        header: if child.header.is_some() {
            clone_opt_header(&child.header)
        } else {
            clone_opt_header(&parent.header)
        },
        hid_locale: if child.hid_locale.is_some() {
            clone_opt_string(&child.hid_locale)
        } else {
            clone_opt_string(&parent.hid_locale)
        },
        parent: if child.parent.is_some() {
            clone_opt_string(&child.parent)
        } else {
            clone_opt_string(&parent.parent)
        },
        locale_notes: concat_notes(&child.locale_notes, &parent.locale_notes),
        to_hid_locale: merge_string_map(&child.to_hid_locale, &parent.to_hid_locale),
        from_hid_locale: merge_string_map(&child.from_hid_locale, &parent.from_hid_locale),
        keyboard_notes: concat_notes(&child.keyboard_notes, &parent.keyboard_notes),
        to_hid_keyboard: merge_string_map(&child.to_hid_keyboard, &parent.to_hid_keyboard),
        from_hid_keyboard: merge_string_map(&child.from_hid_keyboard, &parent.from_hid_keyboard),
        led_notes: concat_notes(&child.led_notes, &parent.led_notes),
        to_hid_led: merge_string_map(&child.to_hid_led, &parent.to_hid_led),
        from_hid_led: merge_string_map(&child.from_hid_led, &parent.from_hid_led),
        sysctrl_notes: concat_notes(&child.sysctrl_notes, &parent.sysctrl_notes),
        to_hid_sysctrl: merge_string_map(&child.to_hid_sysctrl, &parent.to_hid_sysctrl),
        from_hid_sysctrl: merge_string_map(&child.from_hid_sysctrl, &parent.from_hid_sysctrl),
        consumer_notes: concat_notes(&child.consumer_notes, &parent.consumer_notes),
        to_hid_consumer: merge_string_map(&child.to_hid_consumer, &parent.to_hid_consumer),
        from_hid_consumer: merge_string_map(&child.from_hid_consumer, &parent.from_hid_consumer),
        composition: merge_composition(&child.composition, &parent.composition),
    };
    proof {
        assert(view_strings(child.locale_notes@ + parent.locale_notes@) =~= view_strings(
            child.locale_notes@,
        ) + view_strings(parent.locale_notes@));
        assert(view_strings(child.keyboard_notes@ + parent.keyboard_notes@) =~= view_strings(
            child.keyboard_notes@,
        ) + view_strings(parent.keyboard_notes@));
        assert(view_strings(child.led_notes@ + parent.led_notes@) =~= view_strings(
            child.led_notes@,
        ) + view_strings(parent.led_notes@));
        assert(view_strings(child.sysctrl_notes@ + parent.sysctrl_notes@) =~= view_strings(
            child.sysctrl_notes@,
        ) + view_strings(parent.sysctrl_notes@));
        assert(view_strings(child.consumer_notes@ + parent.consumer_notes@) =~= view_strings(
            child.consumer_notes@,
        ) + view_strings(parent.consumer_notes@));
        if child@.wf() && parent@.wf() {
            lemma_merge_entries_uniq(child@.to_hid_locale, parent@.to_hid_locale);
            lemma_merge_entries_uniq(child@.from_hid_locale, parent@.from_hid_locale);
            lemma_merge_entries_uniq(child@.to_hid_keyboard, parent@.to_hid_keyboard);
            lemma_merge_entries_uniq(child@.from_hid_keyboard, parent@.from_hid_keyboard);
            lemma_merge_entries_uniq(child@.to_hid_led, parent@.to_hid_led);
            lemma_merge_entries_uniq(child@.from_hid_led, parent@.from_hid_led);
            lemma_merge_entries_uniq(child@.to_hid_sysctrl, parent@.to_hid_sysctrl);
            lemma_merge_entries_uniq(child@.from_hid_sysctrl, parent@.from_hid_sysctrl);
            lemma_merge_entries_uniq(child@.to_hid_consumer, parent@.to_hid_consumer);
            lemma_merge_entries_uniq(child@.from_hid_consumer, parent@.from_hid_consumer);
            lemma_merge_entries_uniq(child@.composition, parent@.composition);
        }
    }
    r
}

} // verus!

