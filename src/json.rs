//! A JSON document tree, parsed by `serde_json`, and field access on it.

use vstd::prelude::*;
use crate::text::text_eq;

verus! {

/// A JSON document. Object members keep the order in which the parser
/// handed them out.
#[derive(Debug, PartialEq, Eq)]
pub enum Json {
    Null,
    Bool(bool),
    /// A number, as its decimal text.
    Number(String),
    Str(String),
    Array(Vec<Json>),
    Object(Vec<(String, Json)>),
}

#[verifier::external_type_specification]
#[verifier::external_body]
pub struct ExValue(serde_json::Value);

/// The document that `serde_json` parses out of a text, or `None` where the
/// text is not valid JSON.
pub uninterp spec fn json_of_text(text: Seq<char>) -> Option<Json>;

/// Converts a `serde_json::Value` into a `Json`, variant for variant.
#[verifier::external_body]
fn json_from_value(v: serde_json::Value) -> Json {
    match v {
        serde_json::Value::Null => Json::Null,
        serde_json::Value::Bool(b) => Json::Bool(b),
        serde_json::Value::Number(n) => Json::Number(n.to_string()),
        serde_json::Value::String(s) => Json::Str(s),
        serde_json::Value::Array(a) => Json::Array(a.into_iter().map(json_from_value).collect()),
        serde_json::Value::Object(m) => Json::Object(
            m.into_iter().map(|(k, x)| (k, json_from_value(x))).collect(),
        ),
    }
}

/// Relies on `serde_json::from_str::<serde_json::Value>`: the document that a
/// text holds, which depends on the text alone.
#[verifier::external_body]
pub fn parse_json(text: &str) -> (r: Option<Json>)
    ensures
        r == json_of_text(text@),
{
    serde_json::from_str::<serde_json::Value>(text).ok().map(json_from_value)
}

/// The value of the first member of `members` named `key`.
pub open spec fn lookup(members: Seq<(String, Json)>, key: Seq<char>) -> Option<Json>
    decreases members.len(),
{
    if members.len() == 0 {
        None
    } else if members[0].0@ == key {
        Some(members[0].1)
    } else {
        lookup(members.drop_first(), key)
    }
}

/// The value of member `key` of `j`, where `j` is an object.
pub open spec fn member(j: Json, key: Seq<char>) -> Option<Json> {
    match j {
        Json::Object(members) => lookup(members@, key),
        _ => None,
    }
}

/// Taking out an entry whose name is not `key` leaves the lookup of `key` as it was.
proof fn lemma_lookup_remove(members: Seq<(String, Json)>, i: int, key: Seq<char>)
    requires
        0 <= i < members.len(),
        members[i].0@ != key,
    ensures
        lookup(members.remove(i), key) == lookup(members, key),
    decreases i,
{
    if i == 0 {
        assert(members.remove(0) =~= members.drop_first());
    } else {
        assert(members.remove(i).drop_first() =~= members.drop_first().remove(i - 1));
        lemma_lookup_remove(members.drop_first(), i - 1, key);
    }
}

/// Moves the first member named `key` out of `members`, returning its value.
/// Lookups of every other name are unchanged.
pub fn take_member(members: &mut Vec<(String, Json)>, key: &str) -> (r: Option<Json>)
    ensures
        r == lookup(old(members)@, key@),
        forall|k: Seq<char>| k != key@ ==> #[trigger] lookup(final(members)@, k) == lookup(old(members)@, k),
{
    let n = members.len();
    let mut i: usize = 0;
    assert(members@.subrange(0, n as int) =~= members@);
    while i < n
        invariant
            members@ == old(members)@,
            n == members@.len(),
            0 <= i <= n,
            lookup(members@, key@) == lookup(members@.subrange(i as int, n as int), key@),
        decreases n - i,
    {
        proof {
            let s = members@.subrange(i as int, n as int);
            assert(s.drop_first() =~= members@.subrange(i + 1, n as int));
            assert(s[0] == members@[i as int]);
        }
        if text_eq(members[i].0.as_str(), key) {
            let ghost before = members@;
            let entry = members.remove(i);
            proof {
                assert forall|k: Seq<char>| k != key@ implies #[trigger] lookup(members@, k) == lookup(before, k) by {
                    lemma_lookup_remove(before, i as int, k);
                }
            }
            return Some(entry.1);
        }
        i = i + 1;
    }
    proof {
        assert(members@.subrange(n as int, n as int).len() == 0);
    }
    None
}

} // verus!

verus! {

/// Appending a member leaves every earlier lookup as it was, and a name
/// not yet present now finds the new member.
pub proof fn lemma_lookup_push(members: Seq<(String, Json)>, m: (String, Json), key: Seq<char>)
    ensures
        lookup(members.push(m), key) == match lookup(members, key) {
            Some(v) => Some(v),
            None => if m.0@ == key {
                Some(m.1)
            } else {
                None
            },
        },
    decreases members.len(),
{
    if members.len() == 0 {
        let e = Seq::<(String, Json)>::empty();
        assert(members =~= e);
        assert(members.push(m).drop_first() =~= e);
        assert(members.push(m)[0] == m);
        assert(lookup(e, key) is None);
    } else {
        assert(members.push(m)[0] == members[0]);
        assert(members.push(m).drop_first() =~= members.drop_first().push(m));
        lemma_lookup_push(members.drop_first(), m, key);
    }
}

/// Appends a member named `key`.
pub fn push_member(members: &mut Vec<(String, Json)>, key: &str, value: Json)
    ensures
        final(members)@.len() == old(members)@.len() + 1,
        forall|k: Seq<char>| #[trigger] lookup(final(members)@, k) == match lookup(old(members)@, k) {
            Some(v) => Some(v),
            None => if k == key@ {
                Some(value)
            } else {
                None
            },
        },
{
    let ghost before = members@;
    let name = String::from_str(key);
    members.push((name, value));
    proof {
        assert forall|k: Seq<char>| #[trigger] lookup(members@, k) == match lookup(before, k) {
            Some(v) => Some(v),
            None => if k == key@ {
                Some(value)
            } else {
                None
            },
        } by {
            lemma_lookup_push(before, (name, value), k);
        }
    }
}

} // verus!
