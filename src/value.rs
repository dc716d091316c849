//! The value domain that requests, responses and notifications are written in.
//! Turning a value into bytes and back is the wire codec's work, outside this
//! crate's logic.
use vstd::prelude::*;

verus! {

/// A value of the wire domain.
#[derive(Debug)]
pub enum Value {
    Null,
    Bool(bool),
    Int(i64),
    Str(String),
    Bytes(Vec<u8>),
    Uuid(u128),
    Array(Vec<Value>),
    /// An object: its entries in order, each a name and a value.
    Object(Vec<(String, Value)>),
}

/// The value of the first entry named `name`, if any.
pub open spec fn field(entries: Seq<(String, Value)>, name: Seq<char>) -> Option<Value>
    decreases entries.len(),
{
    if entries.len() == 0 {
        None
    } else if entries[0].0@ == name {
        Some(entries[0].1)
    } else {
        field(entries.drop_first(), name)
    }
}

/// The object whose entries are exactly `names` and `values`, position by position.
pub open spec fn is_object(v: Value, names: Seq<Seq<char>>, values: Seq<Value>) -> bool {
    v matches Value::Object(e) && e@.len() == names.len() && e@.len() == values.len() && forall|
        i: int,
    | 0 <= i < names.len() ==> (#[trigger] e@[i]).0@ == names[i] && e@[i].1 == values[i]
}

/// Whether two strings hold the same characters.
pub fn text_eq(a: &str, b: &str) -> (r: bool)
    ensures
        r == (a@ == b@),
{
    let n = a.unicode_len();
    let m = b.unicode_len();
    if n != m {
        return false;
    }
    let mut i: usize = 0;
    while i < n
        invariant
            n == a@.len(),
            m == b@.len(),
            n == m,
            i <= n,
            forall|j: int| 0 <= j < i ==> a@[j] == b@[j],
        decreases n - i,
    {
        if a.get_char(i) != b.get_char(i) {
            return false;
        }
        i = i + 1;
    }
    assert(a@ =~= b@);
    true
}

/// A string holding the characters of `s`.
pub fn text(s: &str) -> (r: String)
    ensures
        r@ == s@,
{
    s.to_string()
}

/// A one-entry object.
pub fn single_entry(name: &str, v: Value) -> (r: Value)
    ensures
        is_object(r, seq![name@], seq![v]),
{
    let mut e: Vec<(String, Value)> = Vec::new();
    e.push((text(name), v));
    Value::Object(e)
}

} // verus!
