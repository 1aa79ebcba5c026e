//! The chip catalogue: the variant names that a chip-family description lists.
//!
//! A description is a YAML document whose top level maps `variants` to a list
//! of mappings, each naming one chip variant under `name`.

use vstd::prelude::*;
use vstd::string::StringExecFns;

verus! {

/// A YAML node, as far as the catalogue reads it.
#[derive(Debug)]
pub enum YamlValue {
    /// A string scalar.
    Text(String),
    /// A sequence.
    List(Vec<YamlValue>),
    /// A mapping, as its key and value pairs in document order.
    Dict(Vec<(YamlValue, YamlValue)>),
    /// Any other scalar (number, boolean, null) or an alias.
    Other,
}

/// The value of the first entry whose key is the text `key`.
pub open spec fn lookup(entries: Seq<(YamlValue, YamlValue)>, key: Seq<char>) -> Option<YamlValue>
    decreases entries.len(),
{
    if entries.len() == 0 {
        None
    } else if entries[0].0 matches YamlValue::Text(k) && k@ == key {
        Some(entries[0].1)
    } else {
        lookup(entries.drop_first(), key)
    }
}

/// The value under `key` when `v` is a mapping.
pub open spec fn field(v: YamlValue, key: Seq<char>) -> Option<YamlValue> {
    match v {
        YamlValue::Dict(entries) => lookup(entries@, key),
        _ => None,
    }
}

/// The list of variants of a chip-family description.
pub open spec fn variants_of(doc: YamlValue) -> Option<Seq<YamlValue>> {
    match field(doc, "variants"@) {
        Some(YamlValue::List(items)) => Some(items@),
        _ => None,
    }
}

/// The name of a variant entry, when it has a text name.
pub open spec fn variant_name(v: YamlValue) -> Option<Seq<char>> {
    match field(v, "name"@) {
        Some(YamlValue::Text(s)) => Some(s@),
        _ => None,
    }
}

/// Every variant in `items` has a text name.
pub open spec fn all_named(items: Seq<YamlValue>) -> bool {
    forall|i: int| 0 <= i < items.len() ==> (#[trigger] variant_name(items[i])) is Some
}

/// The names of `items`, in order.
pub open spec fn names_match(names: Seq<String>, items: Seq<YamlValue>) -> bool {
    &&& names.len() == items.len()
    &&& forall|i: int| 0 <= i < items.len() ==> Some(#[trigger] names[i]@) == variant_name(items[i])
}

/// Looks up `key` among the entries of a mapping.
fn find_field<'a>(entries: &'a Vec<(YamlValue, YamlValue)>, key: &String) -> (r: Option<&'a YamlValue>)
    ensures
        match lookup(entries@, key@) {
            None => r is None,
            Some(v) => r == Some(&v),
        },
{
    let mut i: usize = 0;
    assert(entries@.skip(0) =~= entries@);
    while i < entries.len()
        invariant
            i <= entries@.len(),
            lookup(entries@, key@) == lookup(entries@.skip(i as int), key@),
        decreases entries@.len() - i,
    {
        assert(entries@.skip(i as int).drop_first() =~= entries@.skip(i + 1));
        match &entries[i].0 {
            YamlValue::Text(k) => {
                if *k == *key {
                    return Some(&entries[i].1);
                }
            },
            _ => {},
        }
        i = i + 1;
    }
    None
}

/// The value under `key` when `v` is a mapping.
fn get_field<'a>(v: &'a YamlValue, key: &String) -> (r: Option<&'a YamlValue>)
    ensures
        match field(*v, key@) {
            None => r is None,
            Some(x) => r == Some(&x),
        },
{
    match v {
        YamlValue::Dict(entries) => find_field(entries, key),
        _ => None,
    }
}

/// The variant names of a chip-family description, in order; `None` when it
/// has no list of variants or a variant has no text name.
pub fn variant_names(doc: &YamlValue) -> (r: Option<Vec<String>>)
    ensures
        match variants_of(*doc) {
            None => r is None,
            Some(items) => if all_named(items) {
                r matches Some(names) && names_match(names@, items)
            } else {
                r is None
            },
        },
{
    let variants_key = String::from_str("variants");
    let name_key = String::from_str("name");
    proof {
        reveal_strlit("variants");
        reveal_strlit("name");
    }
    let items = match get_field(doc, &variants_key) {
        Some(YamlValue::List(items)) => items,
        _ => return None,
    };
    let mut names: Vec<String> = Vec::new();
    let mut i: usize = 0;
    while i < items.len()
        invariant
            i <= items@.len(),
            variants_of(*doc) == Some(items@),
            name_key@ == "name"@,
            names_match(names@, items@.take(i as int)),
        decreases items@.len() - i,
    {
        match get_field(&items[i], &name_key) {
            Some(YamlValue::Text(s)) => {
                names.push(s.clone());
            },
            _ => {
                assert(variant_name(items@[i as int]) is None);
                return None;
            },
        }
        i = i + 1;
    }
    assert(items@.take(items@.len() as int) =~= items@);
    assert(names_match(names@, items@));
    assert forall|j: int| 0 <= j < items@.len() implies (#[trigger] variant_name(items@[j])) is Some by {
        assert(Some(names@[j]@) == variant_name(items@[j]));
    }
    Some(names)
}

/// The variant names of a description file's first document; `None` when the
/// file holds no document or that document lists no named variants.
pub fn catalogue_names(docs: &Vec<YamlValue>) -> (r: Option<Vec<String>>)
    ensures
        docs@.len() == 0 ==> r is None,
        docs@.len() > 0 ==> match variants_of(docs@[0]) {
            None => r is None,
            Some(items) => if all_named(items) {
                r matches Some(names) && names_match(names@, items)
            } else {
                r is None
            },
        },
{
    if docs.len() == 0 {
        None
    } else {
        variant_names(&docs[0])
    }
}

} // verus!
