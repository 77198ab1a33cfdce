//! Style lists: the styles of a runtime coating-styles tag, keyed by their
//! name ID in first-seen order, each with its reference and display name.
use vstd::prelude::*;
use indexmap::IndexMap;
use crate::strings::{decimal_of, decimal_text, text_spec, StringTable};

verus! {

#[verifier::external_type_specification]
#[verifier::external_body]
#[verifier::reject_recursive_types(K)]
#[verifier::reject_recursive_types(V)]
#[verifier::reject_recursive_types(S)]
pub struct ExIndexMap<K, V, S>(IndexMap<K, V, S>);

/// A style of a runtime coating-styles tag: the style tag it references
/// and its name ID.
#[derive(PartialEq, Eq, Structural, Debug, Clone, Copy)]
pub struct RuntimeStyleReference {
    pub style_ref: i32,
    pub name: i32,
}

/// A runtime coating-styles tag.
pub struct RuntimeCoatingStyles {
    pub styles: Vec<RuntimeStyleReference>,
    pub default_style_index: i32,
}

/// An entry of a style list: the referenced style's ID and the style's name, as text.
pub struct CommonStyleListEntry {
    pub reference: String,
    pub name: String,
}

/// A style list: the default style's index and the styles by name ID.
pub struct CommonStyleList {
    pub default_index: i32,
    pub styles: IndexMap<i32, CommonStyleListEntry>,
}

/// The entries of a style map, in the map's order.
pub uninterp spec fn style_entries(m: IndexMap<i32, CommonStyleListEntry>) -> Seq<
    (i32, CommonStyleListEntry),
>;

/// Relies on `indexmap::IndexMap::new`: a map with no entries.
#[verifier::external_body]
fn new_style_map() -> (r: IndexMap<i32, CommonStyleListEntry>)
    ensures
        style_entries(r) == Seq::<(i32, CommonStyleListEntry)>::empty(),
{
    IndexMap::new()
}

/// Relies on `indexmap::IndexMap::insert`: a key already present keeps its
/// place and takes the new value; a new key goes last.
#[verifier::external_body]
fn insert_style(m: &mut IndexMap<i32, CommonStyleListEntry>, k: i32, v: CommonStyleListEntry)
    ensures
        forall|i: int|
            0 <= i < style_entries(*old(m)).len() && (#[trigger] style_entries(*old(m))[i]).0 == k
                ==> style_entries(*final(m)) == style_entries(*old(m)).update(i, (k, v)),
        (forall|i: int|
            0 <= i < style_entries(*old(m)).len() ==> (#[trigger] style_entries(*old(m))[i]).0
                != k) ==> style_entries(*final(m)) == style_entries(*old(m)).push((k, v)),
{
    m.insert(k, v);
}

/// The position of the first pair of `s` with key `k`.
pub open spec fn key_pos(s: Seq<(i32, int)>, k: i32, i: int) -> Option<int>
    decreases s.len() - i,
{
    if i < 0 || i >= s.len() {
        None
    } else if s[i].0 == k {
        Some(i)
    } else {
        key_pos(s, k, i + 1)
    }
}

/// The keys of the style list after the first `n` styles, each with the
/// position of the style whose entry it holds: the last one with that key.
pub open spec fn styles_after(refs: Seq<RuntimeStyleReference>, n: int) -> Seq<(i32, int)>
    decreases n,
{
    if n <= 0 || n > refs.len() {
        Seq::empty()
    } else {
        let before = styles_after(refs, n - 1);
        let k = refs[n - 1].name;
        match key_pos(before, k, 0) {
            Some(i) => before.update(i, (k, n - 1)),
            None => before.push((k, n - 1)),
        }
    }
}

/// `e` is the entry of style `r`.
pub open spec fn entry_matches(
    e: CommonStyleListEntry,
    r: RuntimeStyleReference,
    strings: Map<i32, String>,
) -> bool {
    &&& e.reference@ == decimal_of(r.style_ref as int)
    &&& e.name@ == text_spec(strings, r.name)
}

/// The style list entries `es` are those `expected` names.
pub open spec fn list_matches(
    es: Seq<(i32, CommonStyleListEntry)>,
    expected: Seq<(i32, int)>,
    refs: Seq<RuntimeStyleReference>,
    strings: Map<i32, String>,
) -> bool {
    &&& es.len() == expected.len()
    &&& forall|i: int|
        0 <= i < es.len() ==> {
            &&& (#[trigger] es[i]).0 == expected[i].0
            &&& 0 <= expected[i].1 < refs.len()
            &&& entry_matches(es[i].1, refs[expected[i].1], strings)
        }
}

proof fn lemma_key_pos(s: Seq<(i32, int)>, k: i32, i: int)
    requires
        0 <= i <= s.len(),
    ensures
        key_pos(s, k, i) matches Some(p) ==> i <= p < s.len() && s[p].0 == k && forall|j: int|
            i <= j < p ==> s[j].0 != k,
        key_pos(s, k, i) is None ==> forall|j: int| i <= j < s.len() ==> s[j].0 != k,
    decreases s.len() - i,
{
    if i < s.len() && s[i].0 != k {
        lemma_key_pos(s, k, i + 1);
    }
}

/// The style list of a runtime coating-styles tag: for each style, in
/// order, its name ID maps to its entry (a later style with the same name
/// ID replaces the entry in place), and the default index is the tag's.
pub fn process_styles(style: &RuntimeCoatingStyles, strings: &StringTable) -> (r: CommonStyleList)
    ensures
        r.default_index == style.default_style_index,
        list_matches(
            style_entries(r.styles),
            styles_after(style.styles@, style.styles@.len() as int),
            style.styles@,
            strings@,
        ),
{
    let mut map = new_style_map();
    let refs = &style.styles;
    let mut k: usize = 0;
    while k < refs.len()
        invariant
            k <= refs@.len(),
            list_matches(style_entries(map), styles_after(refs@, k as int), refs@, strings@),
        decreases refs@.len() - k,
    {
        let r = refs[k];
        let entry = CommonStyleListEntry {
            reference: decimal_text(r.style_ref),
            name: strings.text_for(r.name),
        };
        let ghost before = styles_after(refs@, k as int);
        let ghost old_entries = style_entries(map);
        proof {
            lemma_key_pos(before, r.name, 0);
        }
        insert_style(&mut map, r.name, entry);
        proof {
            match key_pos(before, r.name, 0) {
                Some(p) => {
                    assert(old_entries[p].0 == r.name);
                },
                None => {
                    assert forall|i: int| 0 <= i < old_entries.len() implies (
                    #[trigger] old_entries[i]).0 != r.name by {
                        assert(before[i].0 != r.name);
                    }
                },
            }
        }
        k = k + 1;
    }
    CommonStyleList { default_index: style.default_style_index, styles: map }
}

} // verus!
