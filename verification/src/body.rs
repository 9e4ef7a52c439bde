//! The JSON response bodies of the two endpoints.
//!
//! The health endpoint returns a fixed payload; the greeting endpoint embeds
//! the path parameter directly between a fixed opening and closing piece,
//! with no escaping. `extract_name` is the inverse direction: it recovers the
//! embedded parameter from a greeting body, provided the parameter holds no
//! quote or backslash (the only characters under which the embedding is not
//! invertible).

use crate::text::str_eq;
use vstd::prelude::*;
use vstd::string::*;

verus! {

/// The fixed body of the health endpoint.
pub open spec fn spec_health_body() -> Seq<char> {
    "{\"status\": \"OK\"}"@
}

/// The opening piece of a greeting body, up to the embedded parameter.
pub open spec fn spec_name_open() -> Seq<char> {
    "{\"name\": \""@
}

/// The closing piece of a greeting body, after the embedded parameter.
pub open spec fn spec_name_close() -> Seq<char> {
    "\"}"@
}

/// The greeting body for a parameter: the parameter embedded, unescaped,
/// between the fixed opening and closing pieces.
pub open spec fn spec_name_body(name: Seq<char>) -> Seq<char> {
    spec_name_open() + name + spec_name_close()
}

/// The parameter recovered from a greeting body, where the body has the
/// greeting shape and the embedded part holds no quote and no backslash;
/// `None` otherwise.
pub open spec fn spec_extract_name(body: Seq<char>) -> Option<Seq<char>> {
    let open_len = spec_name_open().len() as int;
    let close_len = spec_name_close().len() as int;
    if body.len() >= open_len + close_len
        && body.subrange(0, open_len) == spec_name_open()
        && body.subrange(body.len() - close_len, body.len() as int) == spec_name_close()
        && (forall|i: int|
            open_len <= i < body.len() - close_len ==> body[i] != '"' && body[i] != '\\')
    {
        Some(body.subrange(open_len, body.len() - close_len))
    } else {
        None
    }
}

/// Builds the fixed health body.
pub fn health_body() -> (r: String)
    ensures
        r@ == spec_health_body(),
{
    String::from_str("{\"status\": \"OK\"}")
}

/// Builds the greeting body for a parameter.
pub fn name_body(name: &str) -> (r: String)
    ensures
        r@ == spec_name_body(name@),
{
    let mut s = String::from_str("{\"name\": \"");
    s.append(name);
    s.append("\"}");
    proof {
        assert(s@ =~= spec_name_body(name@));
    }
    s
}

/// Recovers the embedded parameter from a greeting body.
#[verifier::loop_isolation(false)]
pub fn extract_name<'a>(body: &'a str) -> (r: Option<&'a str>)
    ensures
        match r {
            Some(p) => spec_extract_name(body@) == Some(p@),
            None => spec_extract_name(body@) is None,
        },
{
    proof {
        reveal_strlit("{\"name\": \"");
        reveal_strlit("\"}");
    }
    let len = body.unicode_len();
    if len < 12 {
        return None;
    }
    let head = body.substring_char(0, 10);
    if !str_eq(head, "{\"name\": \"") {
        return None;
    }
    let tail = body.substring_char(len - 2, len);
    if !str_eq(tail, "\"}") {
        return None;
    }
    let middle = body.substring_char(10, len - 2);
    let middle_len = middle.unicode_len();
    let mut i: usize = 0;
    while i < middle_len
        invariant
            forall|j: int| 0 <= j < i ==> middle@[j] != '"' && middle@[j] != '\\',
        decreases middle_len - i,
    {
        let c = middle.get_char(i);
        if c == '"' || c == '\\' {
            proof {
                assert(body@[10 + i] == middle@[i as int]);
            }
            return None;
        }
        i = i + 1;
    }
    proof {
        assert forall|k: int| 10 <= k < body@.len() - 2 implies body@[k] != '"' && body@[k]
            != '\\' by {
            assert(body@[k] == middle@[k - 10]);
        }
    }
    Some(middle)
}

/// Embedding a parameter that holds no quote and no backslash into a greeting
/// body, then extracting it, gives the parameter back unchanged.
pub proof fn lemma_name_body_round_trip(name: Seq<char>)
    requires
        forall|i: int| 0 <= i < name.len() ==> name[i] != '"' && name[i] != '\\',
    ensures
        spec_extract_name(spec_name_body(name)) == Some(name),
{
    let body = spec_name_body(name);
    let open_len = spec_name_open().len() as int;
    let close_len = spec_name_close().len() as int;
    assert(body.subrange(0, open_len) =~= spec_name_open());
    assert(body.subrange(body.len() - close_len, body.len() as int) =~= spec_name_close());
    assert forall|i: int| open_len <= i < body.len() - close_len implies body[i] != '"' && body[i]
        != '\\' by {
        assert(body[i] == name[i - open_len]);
    }
    assert(body.subrange(open_len, body.len() - close_len) =~= name);
}

} // verus!
