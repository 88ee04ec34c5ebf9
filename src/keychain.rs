//! Turning the platform keychain tool's answer into a secret.
use vstd::prelude::*;
use crate::error::ErrorChain;
use crate::server::white_space;

verus! {

/// `t` is `s` without leading and trailing whitespace.
pub open spec fn is_trim_of(s: Seq<char>, t: Seq<char>) -> bool {
    exists|b: int, e: int|
        0 <= b <= e <= s.len() && t == s.subrange(b, e) && (forall|i: int|
            0 <= i < b ==> white_space(#[trigger] s[i])) && (forall|i: int|
            e <= i < s.len() ==> white_space(#[trigger] s[i])) && (b < e ==> !white_space(s[b])
            && !white_space(s[e - 1]))
}

/// Relies on `str::trim`: the text with leading and trailing Unicode
/// `White_Space` characters removed (the same property as
/// `char::is_whitespace`).
#[verifier::external_body]
fn trim(s: &str) -> (r: &str)
    ensures
        is_trim_of(s@, r@),
{
    s.trim()
}

/// The secret from the keychain tool's answer for `secret_ref`: its output
/// without surrounding whitespace when the lookup succeeded, else an error
/// naming the reference.
pub fn secret_from_output(secret_ref: &str, succeeded: bool, output: &str) -> (r: Result<
    String,
    ErrorChain,
>)
    ensures
        succeeded ==> (r matches Ok(secret) && is_trim_of(output@, secret@)),
        !succeeded ==> (r matches Err(e) && e@ == seq!["keychain secret not found for "@ + secret_ref@]),
{
    if !succeeded {
        return Err(ErrorChain::new(String::from_str("keychain secret not found for ").concat(secret_ref)));
    }
    Ok(String::from_str(trim(output)))
}

} // verus!
