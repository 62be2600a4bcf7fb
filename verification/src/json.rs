//! JSON documents as trees of plain values.

use vstd::prelude::*;
use vstd::string::*;

verus! {

/// `serde_json::Value`, the parser's own tree. Nothing of its inside is
/// visible here: a value is only carried from the parser to [`lift`].
#[verifier::external_type_specification]
#[verifier::external_body]
pub struct ExValue(serde_json::Value);

/// A JSON value.
///
/// A number keeps a numeral as text, as the parser words it, and beside it
/// its value where that is an integer from 0 to 2^64 - 1. An object lists
/// its members, name and value.
#[derive(Debug)]
pub enum Json {
    Null,
    Bool(bool),
    Number { unsigned: Option<u64>, numeral: String },
    Text(String),
    Array(Vec<Json>),
    Object(Vec<(String, Json)>),
}

/// What `serde_json::from_slice` makes of a body: the value it parses to, or
/// the message of the error with which it rejects the body.
pub uninterp spec fn parsed(body: Seq<u8>) -> Result<serde_json::Value, String>;

/// The tree that a `serde_json::Value` holds, as [`lift`] copies it.
pub uninterp spec fn tree_of(value: serde_json::Value) -> Json;

/// Calls `serde_json::from_slice` for a `serde_json::Value`, and keeps of an
/// error the message that its `Display` prints. The outcome depends on the
/// bytes alone; the contract gives it its name and claims nothing else about
/// it.
#[verifier::external_body]
fn parse_value(body: &[u8]) -> (r: Result<serde_json::Value, String>)
    ensures
        r == parsed(body@),
{
    match serde_json::from_slice::<serde_json::Value>(body) {
        Ok(value) => Ok(value),
        Err(e) => Err(e.to_string()),
    }
}

/// Copies a `serde_json::Value` into a [`Json`], variant by variant. A number
/// gives what `Number::as_u64` and its `Display` text return; an object gives
/// its members in the order in which `Map::iter` walks them. The contract
/// names the tree and claims nothing else about it.
#[verifier::external_body]
fn lift(value: &serde_json::Value) -> (r: Json)
    ensures
        r == tree_of(*value),
{
    match value {
        serde_json::Value::Null => Json::Null,
        serde_json::Value::Bool(b) => Json::Bool(*b),
        serde_json::Value::Number(n) => Json::Number { unsigned: n.as_u64(), numeral: n.to_string() },
        serde_json::Value::String(s) => Json::Text(s.clone()),
        serde_json::Value::Array(a) => Json::Array(a.iter().map(lift).collect()),
        serde_json::Value::Object(m) => Json::Object(m.iter().map(|(k, v)| (k.clone(), lift(v))).collect()),
    }
}

/// The JSON document that a body holds, or the parser's account of why it
/// holds none.
pub open spec fn document(body: Seq<u8>) -> Result<Json, String> {
    match parsed(body) {
        Ok(value) => Ok(tree_of(value)),
        Err(e) => Err(e),
    }
}

/// The value of the first member called `name`, if there is one.
pub open spec fn lookup(members: Seq<(String, Json)>, name: Seq<char>) -> Option<Json>
    decreases members.len(),
{
    if members.len() == 0 {
        None
    } else if members[0].0@ == name {
        Some(members[0].1)
    } else {
        lookup(members.drop_first(), name)
    }
}

/// A list without a member called `name` yields nothing, and conversely.
pub proof fn lookup_fails_iff_absent(members: Seq<(String, Json)>, name: Seq<char>)
    ensures
        lookup(members, name) is None <==> forall|i: int|
            0 <= i < members.len() ==> (#[trigger] members[i]).0@ != name,
    decreases members.len(),
{
    if members.len() > 0 {
        let rest = members.drop_first();
        lookup_fails_iff_absent(rest, name);
        assert forall|i: int| 0 <= i < rest.len() implies rest[i] == members[i + 1] by {}
        if members[0].0@ != name && lookup(rest, name) is None {
            assert forall|i: int| 0 <= i < members.len() implies (#[trigger] members[i]).0@
                != name by {
                if i > 0 {
                    assert(members[i] == rest[i - 1]);
                }
            }
        }
        if lookup(members, name) is Some && members[0].0@ != name {
            let k = choose|k: int| 0 <= k < rest.len() && (#[trigger] rest[k]).0@ == name;
            assert(members[k + 1].0@ == name);
        }
    }
}

impl Json {
    /// Reads a body as a JSON document.
    pub fn parse(body: &[u8]) -> (r: Result<Json, String>)
        ensures
            r == document(body@),
    {
        match parse_value(body) {
            Ok(value) => Ok(lift(&value)),
            Err(e) => Err(e),
        }
    }

    /// The member called `name` of an object; nothing for any other value.
    pub open spec fn member(self, name: Seq<char>) -> Option<Json> {
        match self {
            Json::Object(members) => lookup(members@, name),
            _ => None,
        }
    }

    /// The value as a `u32`: a number that is an integer from 0 to 2^32 - 1.
    pub open spec fn as_u32(self) -> Option<u32> {
        match self {
            Json::Number { unsigned: Some(n), .. } => if n <= u32::MAX {
                Some(n as u32)
            } else {
                None
            },
            _ => None,
        }
    }

    /// The numeral of a number.
    pub open spec fn as_numeral(self) -> Option<String> {
        match self {
            Json::Number { numeral, .. } => Some(numeral),
            _ => None,
        }
    }

    /// The content of a string.
    pub open spec fn as_text(self) -> Option<String> {
        match self {
            Json::Text(text) => Some(text),
            _ => None,
        }
    }

    /// The elements of an array.
    pub open spec fn as_items(self) -> Option<Seq<Json>> {
        match self {
            Json::Array(items) => Some(items@),
            _ => None,
        }
    }

    /// Finds the member called `name`.
    pub fn get<'a>(&'a self, name: &str) -> (r: Option<&'a Json>)
        ensures
            match r {
                Some(value) => self.member(name@) == Some(*value),
                None => self.member(name@) is None,
            },
    {
        match self {
            Json::Object(members) => {
                let key = String::from_str(name);
                let mut i: usize = 0;
                proof {
                    assert(members@.skip(0) =~= members@);
                }
                while i < members.len()
                    invariant
                        i <= members.len(),
                        key@ == name@,
                        self.member(name@) == lookup(members@, name@),
                        lookup(members@, name@) == lookup(members@.skip(i as int), name@),
                    decreases members.len() - i,
                {
                    proof {
                        assert(members@.skip(i as int).drop_first() =~= members@.skip(i as int + 1));
                        assert(members@.skip(i as int)[0] == members@[i as int]);
                    }
                    if members[i].0 == key {
                        return Some(&members[i].1);
                    }
                    i += 1;
                }
                None
            },
            _ => None,
        }
    }
}

} // verus!
