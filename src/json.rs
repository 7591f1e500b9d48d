//! A plain model of a decoded JSON document, and lookups on token claims.

use vstd::prelude::*;

verus! {

/// A JSON value. A number is held as its decimal text; an object as its
/// members in document order.
#[derive(Debug, PartialEq)]
pub enum JsonValue {
    Null,
    Bool(bool),
    Num(String),
    Str(String),
    Array(Vec<JsonValue>),
    Object(Vec<(String, JsonValue)>),
}

/// The value of the first member of `entries` named `key`, if any.
pub open spec fn member(entries: Seq<(String, JsonValue)>, key: Seq<char>) -> Option<JsonValue>
    decreases entries.len(),
{
    if entries.len() == 0 {
        None
    } else if entries[0].0@ == key {
        Some(entries[0].1)
    } else {
        member(entries.drop_first(), key)
    }
}

/// The value reached from `v` by following the object keys of `path` in
/// order; `None` as soon as a step meets a non-object or a missing key.
pub open spec fn value_at(v: JsonValue, path: Seq<String>) -> Option<JsonValue>
    decreases path.len(),
{
    if path.len() == 0 {
        Some(v)
    } else {
        match v {
            JsonValue::Object(entries) => match member(entries@, path[0]@) {
                Some(child) => value_at(child, path.drop_first()),
                None => None,
            },
            _ => None,
        }
    }
}

/// `v` is an array all of whose items are strings.
pub open spec fn is_string_array(v: JsonValue) -> bool {
    match v {
        JsonValue::Array(items) => forall|i: int|
            0 <= i < items@.len() ==> #[trigger] items@[i] is Str,
        _ => false,
    }
}

/// `v` is an array whose items are the strings `strings`, in order.
pub open spec fn holds_strings(v: JsonValue, strings: Seq<String>) -> bool {
    match v {
        JsonValue::Array(items) => items@.len() == strings.len() && forall|i: int|
            0 <= i < items@.len() ==> items@[i] == JsonValue::Str(#[trigger] strings[i]),
        _ => false,
    }
}

/// Looks up the member named `key` among `entries`.
pub fn object_member<'a>(entries: &'a Vec<(String, JsonValue)>, key: &String) -> (r: Option<
    &'a JsonValue,
>)
    ensures
        match r {
            Some(v) => member(entries@, key@) == Some(*v),
            None => member(entries@, key@) is None,
        },
{
    let mut i: usize = 0;
    assert(entries@.subrange(0, entries@.len() as int) =~= entries@);
    while i < entries.len()
        invariant
            i <= entries@.len(),
            member(entries@, key@) == member(entries@.subrange(i as int, entries@.len() as int), key@),
        decreases entries@.len() - i,
    {
        let rest: Ghost<Seq<(String, JsonValue)>> = Ghost(entries@.subrange(i as int, entries@.len() as int));
        assert(rest@.drop_first() =~= entries@.subrange(i + 1, entries@.len() as int));
        if entries[i].0 == *key {
            return Some(&entries[i].1);
        }
        i = i + 1;
    }
    None
}

/// The value reached from `json` by following the object keys of `path`.
/// An empty path gives the whole document.
pub fn value_at_path<'a>(json: &'a JsonValue, path: &[String]) -> (r: Option<&'a JsonValue>)
    ensures
        match r {
            Some(v) => value_at(*json, path@) == Some(*v),
            None => value_at(*json, path@) is None,
        },
{
    let mut current: &JsonValue = json;
    let mut i: usize = 0;
    assert(path@.subrange(0, path@.len() as int) =~= path@);
    while i < path.len()
        invariant
            i <= path@.len(),
            value_at(*json, path@) == value_at(*current, path@.subrange(i as int, path@.len() as int)),
        decreases path@.len() - i,
    {
        let rest: Ghost<Seq<String>> = Ghost(path@.subrange(i as int, path@.len() as int));
        assert(rest@.drop_first() =~= path@.subrange(i + 1, path@.len() as int));
        match current {
            JsonValue::Object(entries) => {
                match object_member(entries, &path[i]) {
                    Some(child) => {
                        current = child;
                    },
                    None => {
                        return None;
                    },
                }
            },
            _ => {
                return None;
            },
        }
        i = i + 1;
    }
    assert(path@.subrange(i as int, path@.len() as int).len() == 0);
    Some(current)
}

/// The strings of `v`, where `v` is an array of strings only.
pub fn to_string_array(v: &JsonValue) -> (r: Option<Vec<String>>)
    ensures
        r is Some <==> is_string_array(*v),
        r matches Some(strings) ==> holds_strings(*v, strings@),
{
    match v {
        JsonValue::Array(items) => {
            let mut out: Vec<String> = Vec::new();
            let mut i: usize = 0;
            while i < items.len()
                invariant
                    *v == JsonValue::Array(*items),
                    i <= items@.len(),
                    out@.len() == i,
                    forall|j: int| 0 <= j < i ==> items@[j] == JsonValue::Str(#[trigger] out@[j]),
                decreases items@.len() - i,
            {
                match &items[i] {
                    JsonValue::Str(s) => {
                        out.push(s.clone());
                    },
                    _ => {
                        assert(!(items@[i as int] is Str));
                        return None;
                    },
                }
                i = i + 1;
            }
            assert forall|j: int| 0 <= j < items@.len() implies #[trigger] items@[j] is Str by {
                assert(items@[j] == JsonValue::Str(out@[j]));
            }
            Some(out)
        },
        _ => None,
    }
}

} // verus!
