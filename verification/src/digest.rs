//! The APOP challenge-response digest: the hexadecimal MD5 of the greeting
//! timestamp concatenated with the shared-secret password.

use vstd::prelude::*;

verus! {

/// The lowercase hexadecimal MD5 digest of the UTF-8 encoding of `data`,
/// as the `md5` crate computes it. The digest is a function of the input
/// characters alone; nothing more is assumed of it here.
pub uninterp spec fn md5_hex(data: Seq<char>) -> Seq<char>;

/// Relies on `md5::compute` (RFC 1321 MD5): the 16-byte digest depends on
/// the input bytes alone, and its `LowerHex` form is two hex digits per
/// byte, 32 characters in all.
#[verifier::external_body]
fn md5_hex_digest(data: &str) -> (r: String)
    ensures
        r@ == md5_hex(data@),
        r@.len() == 32,
{
    format!("{:x}", md5::compute(data.as_bytes()))
}

/// The digest that the APOP command carries for a given greeting timestamp
/// and password.
pub open spec fn spec_apop_digest(timestamp: Seq<char>, password: Seq<char>) -> Seq<char> {
    md5_hex(timestamp + password)
}

/// Compute the APOP digest: hexadecimal MD5 of the timestamp token
/// (brackets included) followed by the password.
pub fn apop_digest(timestamp: &str, password: &str) -> (r: String)
    ensures
        r@ == spec_apop_digest(timestamp@, password@),
        r@.len() == 32,
{
    let mut input = String::from_str(timestamp);
    input.append(password);
    md5_hex_digest(input.as_str())
}

/// The APOP digest is deterministic: computed twice from identical
/// timestamp and password inputs, it is identical.
pub proof fn lemma_apop_digest_deterministic(
    t1: Seq<char>,
    p1: Seq<char>,
    t2: Seq<char>,
    p2: Seq<char>,
)
    requires
        t1 == t2,
        p1 == p2,
    ensures
        spec_apop_digest(t1, p1) == spec_apop_digest(t2, p2),
{
}

} // verus!
