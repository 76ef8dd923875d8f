//! One key and one primitive value, written as at most one argument.

use crate::text::{flag_token, key_value_token};
use vstd::prelude::*;
use vstd::string::*;

verus! {

/// The argument of a boolean: the bare flag when it is true, nothing when it
/// is false.
pub open spec fn bool_arg(key: Seq<char>, v: bool) -> Option<Seq<char>> {
    if v {
        Some(flag_token(key))
    } else {
        None
    }
}

/// Writes `--k=v`.
pub fn parse_string_arg(k: &str, v: &str) -> (r: String)
    ensures
        r@ == key_value_token(k@, v@),
{
    let mut r = String::from_str("--");
    r.append(k);
    r.append("=");
    r.append(v);
    r
}

/// Writes the bare flag `--k` for `true`. A `false` gives no argument at all:
/// that the flag is absent is how a flag-style parser learns of it, and no
/// `--k=false` is ever written.
pub fn parse_bool_arg(k: &str, v: bool) -> (r: Option<String>)
    ensures
        r is Some == v,
        r matches Some(t) ==> t@ == flag_token(k@),
{
    if v {
        let mut r = String::from_str("--");
        r.append(k);
        Some(r)
    } else {
        None
    }
}

} // verus!
