use vstd::prelude::*;

use std::str::FromStr;

use derivation_path::{DerivationPath, DerivationPathParseError};

use crate::error::SignError;

verus! {

#[verifier::external_type_specification]
#[verifier::external_body]
pub struct ExDerivationPath(DerivationPath);

#[verifier::external_type_specification]
#[verifier::external_body]
pub struct ExDerivationPathParseError(DerivationPathParseError);

/// Whether `c` is an ASCII decimal digit.
pub open spec fn is_digit(c: char) -> bool {
    '0' <= c && c <= '9'
}

/// The value of the decimal digits `d`.
pub open spec fn decimal(d: Seq<char>) -> int
    decreases d.len(),
{
    if d.len() == 0 {
        0
    } else {
        decimal(d.drop_last()) * 10 + ((d.last() as u32) - 48)
    }
}

/// Whether `c` is one child index: an optional `+`, one or more decimal digits with
/// a value below 2^31, and an optional trailing `'` that marks it hardened.
pub open spec fn valid_component(c: Seq<char>) -> bool {
    let body = if c.len() > 0 && c.last() == '\'' {
        c.drop_last()
    } else {
        c
    };
    let d = if body.len() > 0 && body[0] == '+' {
        body.skip(1)
    } else {
        body
    };
    d.len() >= 1 && (forall|i: int| 0 <= i < d.len() ==> is_digit(#[trigger] d[i])) && decimal(d)
        < 0x8000_0000
}

/// Whether `t`, read after the characters `cur` of the current component, is a
/// `/`-separated list of valid child indexes.
pub open spec fn valid_components(t: Seq<char>, cur: Seq<char>) -> bool
    decreases t.len(),
{
    if t.len() == 0 {
        valid_component(cur)
    } else if t[0] == '/' {
        valid_component(cur) && valid_components(t.skip(1), Seq::empty())
    } else {
        valid_components(t.skip(1), cur.push(t[0]))
    }
}

/// Whether `s` is a derivation path: `m` alone, or `m` followed by `/`-separated
/// child indexes.
pub open spec fn valid_path(s: Seq<char>) -> bool {
    s.len() >= 1 && s[0] == 'm' && (s.len() == 1 || (s[1] == '/' && valid_components(
        s.skip(2),
        Seq::empty(),
    )))
}

/// Relies on `DerivationPath::from_str`: it splits at `/`, wants `m` first, and parses
/// each further part with `ChildIndex::from_str`, which takes an optional trailing `'`
/// and a `u32` (`u32::from_str`: an optional `+` and decimal digits) below 2^31.
#[verifier::external_body]
fn derivation_path_from_str(s: &str) -> (r: Result<DerivationPath, DerivationPathParseError>)
    ensures
        r is Ok <==> valid_path(s@),
{
    DerivationPath::from_str(s)
}

/// Parse the key-derivation path of a session (`m/44'/0'/0`); a string that is not a
/// derivation path is `InvalidInput`.
pub fn parse_chain_path(chain_path: &str) -> (r: Result<DerivationPath, SignError>)
    ensures
        r is Ok <==> valid_path(chain_path@),
        r is Err ==> r == Err::<DerivationPath, SignError>(SignError::InvalidInput),
{
    match derivation_path_from_str(chain_path) {
        Ok(p) => Ok(p),
        Err(_) => Err(SignError::InvalidInput),
    }
}

} // verus!
