//! The JSON objects this library hands to the messaging task: objects of
//! two string members, with the string literals written by serde_json.

use crate::outside::{json_quote, json_string_literal};
use vstd::prelude::*;

verus! {

/// `{"k1":v1,"k2":v2}`, every key and value written as a JSON string literal.
pub open spec fn json_pair_object(
    k1: Seq<char>,
    v1: Seq<char>,
    k2: Seq<char>,
    v2: Seq<char>,
) -> Seq<char> {
    seq!['{'] + json_string_literal(k1) + seq![':'] + json_string_literal(v1) + seq![',']
        + json_string_literal(k2) + seq![':'] + json_string_literal(v2) + seq!['}']
}

fn push_quoted(out: &mut String, s: &str)
    ensures
        final(out)@ == old(out)@ + json_string_literal(s@),
{
    let q = json_quote(s);
    let q = q.unwrap();
    out.append(q.as_str());
}

/// Writes the JSON object with the two string members `k1: v1` and
/// `k2: v2`, in that order.
pub fn pair_object(k1: &str, v1: &str, k2: &str, v2: &str) -> (obj: String)
    ensures
        obj@ == json_pair_object(k1@, v1@, k2@, v2@),
{
    let mut out = String::new();
    out.push('{');
    push_quoted(&mut out, k1);
    out.push(':');
    push_quoted(&mut out, v1);
    out.push(',');
    push_quoted(&mut out, k2);
    out.push(':');
    push_quoted(&mut out, v2);
    out.push('}');
    proof {
        assert(out@ =~= json_pair_object(k1@, v1@, k2@, v2@));
    }
    out
}

} // verus!
