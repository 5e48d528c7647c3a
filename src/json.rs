use vstd::prelude::*;
use crate::text::is_word;

verus! {

/// A JSON document as the response handler reads it.
#[derive(Debug)]
pub enum JsonValue {
    Null,
    Bool(bool),
    /// A number, kept in its textual form.
    Number(String),
    Str(String),
    Array(Vec<JsonValue>),
    /// An object's members in document order.
    Object(Vec<(String, JsonValue)>),
}

/// The value of the first member named `key`, if any.
pub open spec fn member(fields: Seq<(String, JsonValue)>, key: Seq<char>) -> Option<JsonValue>
    decreases fields.len(),
{
    if fields.len() == 0 {
        None
    } else if fields[0].0@ == key {
        Some(fields[0].1)
    } else {
        member(fields.drop_first(), key)
    }
}

/// The member `key` of `v`; nothing when `v` is not an object or lacks it.
pub open spec fn field(v: JsonValue, key: Seq<char>) -> Option<JsonValue> {
    match v {
        JsonValue::Object(fields) => member(fields@, key),
        _ => None,
    }
}

/// Looks up the member `key` of `v`.
pub fn get_field<'a>(v: &'a JsonValue, key: &str) -> (r: Option<&'a JsonValue>)
    ensures
        r is Some <==> field(*v, key@) is Some,
        r is Some ==> field(*v, key@) == Some(*r.unwrap()),
{
    match v {
        JsonValue::Object(fields) => {
            let n = fields.len();
            let mut i: usize = 0;
            assert(fields@.subrange(0, n as int) =~= fields@);
            while i < n
                invariant
                    n == fields@.len(),
                    field(*v, key@) == member(fields@, key@),
                    i <= n,
                    member(fields@, key@) == member(fields@.subrange(i as int, n as int), key@),
                decreases n - i,
            {
                let ghost rest = fields@.subrange(i as int, n as int);
                assert(rest.drop_first() =~= fields@.subrange(i + 1, n as int));
                assert(rest[0] == fields@[i as int]);
                if is_word(&fields[i].0, key) {
                    assert(member(rest, key@) == Some(fields@[i as int].1));
                    return Some(&fields[i].1);
                }
                i = i + 1;
            }
            assert(fields@.subrange(n as int, n as int).len() == 0);
            None
        },
        _ => None,
    }
}

} // verus!
