use vstd::prelude::*;
use crate::text::str_eq;

verus! {

/// A property-list value, as far as the shortcut checks read one: the
/// container shapes, strings, integers (numbers that convert to an `i64`
/// without loss), booleans, and everything else lumped together.
pub enum PlistValue {
    Dictionary(Vec<PlistEntry>),
    Array(Vec<PlistValue>),
    Text(String),
    Integer(i64),
    Boolean(bool),
    Other,
}

/// One key/value pair of a property-list dictionary.
pub struct PlistEntry {
    pub key: PlistValue,
    pub value: PlistValue,
}

/// The value stored under the string key `key`: that of the first entry
/// whose key is a string equal to `key`.
pub open spec fn lookup(entries: Seq<PlistEntry>, key: Seq<char>) -> Option<PlistValue>
    decreases entries.len(),
{
    if entries.len() == 0 {
        None
    } else if entries[0].key matches PlistValue::Text(k) && k@ == key {
        Some(entries[0].value)
    } else {
        lookup(entries.drop_first(), key)
    }
}

/// The text of an entry's key, when the key is a string.
pub open spec fn text_key(entry: PlistEntry) -> Option<Seq<char>> {
    text_of(entry.key)
}

/// A number or boolean read as an integer (`true` is 1, `false` is 0).
pub open spec fn integer_of(value: PlistValue) -> Option<i64> {
    match value {
        PlistValue::Integer(n) => Some(n),
        PlistValue::Boolean(b) => Some(if b { 1i64 } else { 0i64 }),
        _ => None,
    }
}

/// The characters of a string value.
pub open spec fn text_of(value: PlistValue) -> Option<Seq<char>> {
    match value {
        PlistValue::Text(s) => Some(s@),
        _ => None,
    }
}

/// The entries of a dictionary value.
pub open spec fn entries_of(value: PlistValue) -> Option<Seq<PlistEntry>> {
    match value {
        PlistValue::Dictionary(entries) => Some(entries@),
        _ => None,
    }
}

/// The elements of an array value.
pub open spec fn elements_of(value: PlistValue) -> Option<Seq<PlistValue>> {
    match value {
        PlistValue::Array(items) => Some(items@),
        _ => None,
    }
}

/// Looks up a string key in a dictionary's entries.
pub fn find<'a>(entries: &'a Vec<PlistEntry>, key: &str) -> (found: Option<&'a PlistValue>)
    ensures
        match found {
            Some(v) => lookup(entries@, key@) == Some(*v),
            None => lookup(entries@, key@) is None,
        },
{
    let mut i: usize = 0;
    assert(entries@.subrange(0, entries@.len() as int) =~= entries@);
    while i < entries.len()
        invariant
            i <= entries@.len(),
            lookup(entries@, key@) == lookup(entries@.subrange(i as int, entries@.len() as int), key@),
        decreases entries@.len() - i,
    {
        let rest = Ghost(entries@.subrange(i as int, entries@.len() as int));
        assert(rest@[0] == entries@[i as int]);
        assert(rest@.drop_first() =~= entries@.subrange(i + 1, entries@.len() as int));
        match &entries[i].key {
            PlistValue::Text(k) => {
                if str_eq(k.as_str(), key) {
                    return Some(&entries[i].value);
                }
            },
            _ => {},
        }
        i = i + 1;
    }
    assert(entries@.subrange(i as int, entries@.len() as int).len() == 0);
    None
}

/// Reads a number or boolean as an integer.
pub fn as_i64(value: &PlistValue) -> (n: Option<i64>)
    ensures
        n == integer_of(*value),
{
    match value {
        PlistValue::Integer(n) => Some(*n),
        PlistValue::Boolean(b) => Some(if *b { 1 } else { 0 }),
        _ => None,
    }
}

/// Reads a string value.
pub fn as_string(value: &PlistValue) -> (s: Option<String>)
    ensures
        match s {
            Some(s) => text_of(*value) == Some(s@),
            None => text_of(*value) is None,
        },
{
    match value {
        PlistValue::Text(s) => Some(s.clone()),
        _ => None,
    }
}

/// Reads a dictionary value.
pub fn as_dictionary(value: &PlistValue) -> (entries: Option<&Vec<PlistEntry>>)
    ensures
        match entries {
            Some(e) => entries_of(*value) == Some(e@),
            None => entries_of(*value) is None,
        },
{
    match value {
        PlistValue::Dictionary(entries) => Some(entries),
        _ => None,
    }
}

/// Reads an array value.
pub fn as_array(value: &PlistValue) -> (items: Option<&Vec<PlistValue>>)
    ensures
        match items {
            Some(a) => elements_of(*value) == Some(a@),
            None => elements_of(*value) is None,
        },
{
    match value {
        PlistValue::Array(items) => Some(items),
        _ => None,
    }
}

/// A lookup finds a value exactly when some entry's key is the string
/// `key`, and the value it finds is that of the first such entry.
pub proof fn lemma_lookup_finds_first_match(entries: Seq<PlistEntry>, key: Seq<char>)
    ensures
        lookup(entries, key) is Some <==> exists|i: int|
            0 <= i < entries.len() && text_key(#[trigger] entries[i]) == Some(key),
        lookup(entries, key) matches Some(v) ==> exists|i: int|
            0 <= i < entries.len() && text_key(#[trigger] entries[i]) == Some(key) && entries[i].value == v
                && forall|j: int| 0 <= j < i ==> text_key(#[trigger] entries[j]) != Some(key),
    decreases entries.len(),
{
    if entries.len() > 0 {
        let rest = entries.drop_first();
        lemma_lookup_finds_first_match(rest, key);
        assert forall|i: int| 1 <= i < entries.len() implies entries[i] == rest[i - 1] by {}
        if text_key(entries[0]) == Some(key) {
            assert(text_key(entries[0]) == Some(key));
        } else {
            if lookup(rest, key) is Some {
                let i = choose|i: int|
                    0 <= i < rest.len() && text_key(#[trigger] rest[i]) == Some(key) && rest[i].value
                        == lookup(rest, key).unwrap() && forall|j: int|
                        0 <= j < i ==> text_key(#[trigger] rest[j]) != Some(key);
                assert(text_key(entries[i + 1]) == Some(key));
                assert forall|j: int| 0 <= j < i + 1 implies text_key(#[trigger] entries[j]) != Some(key) by {
                    if j > 0 {
                        assert(entries[j] == rest[j - 1]);
                    }
                }
            }
            if exists|i: int| 0 <= i < entries.len() && text_key(#[trigger] entries[i]) == Some(key) {
                let i = choose|i: int| 0 <= i < entries.len() && text_key(#[trigger] entries[i]) == Some(key);
                assert(i > 0);
                assert(text_key(rest[i - 1]) == Some(key));
            }
        }
    }
}

} // verus!
