//! Verification codes.

use vstd::prelude::*;

verus! {

/// Number of characters in a verification code.
pub const VERIFICATION_CODE_LEN: usize = 32;

/// Whether `c` is an ASCII letter or digit.
pub open spec fn is_alphanumeric(c: char) -> bool {
    ('A' <= c && c <= 'Z') || ('a' <= c && c <= 'z') || ('0' <= c && c <= '9')
}

/// Whether `code` has the form of a verification code: 32 ASCII letters and
/// digits.
pub open spec fn is_verification_code(code: Seq<char>) -> bool {
    &&& code.len() == VERIFICATION_CODE_LEN
    &&& forall|i: int| 0 <= i < code.len() ==> is_alphanumeric(#[trigger] code[i])
}

/// Draws `len` characters from the rand crate's `Alphanumeric` distribution
/// with the thread's generator (`thread_rng`, `sample_iter`). Each draw is
/// one of the 62 ASCII letters and digits; which ones come is not said.
/// The generator panics if the system cannot seed it. Believed, not proved.
#[verifier::external_body]
fn random_alphanumeric(len: usize) -> (code: String)
    ensures
        code@.len() == len,
        forall|i: int| 0 <= i < code@.len() ==> is_alphanumeric(#[trigger] code@[i]),
{
    rand::Rng::sample_iter(rand::thread_rng(), rand::distributions::Alphanumeric).take(len).map(
        char::from,
    ).collect()
}

/// A fresh verification code.
pub fn new_verification_code() -> (code: String)
    ensures
        is_verification_code(code@),
{
    random_alphanumeric(VERIFICATION_CODE_LEN)
}

/// Some sequence has the form of a verification code.
pub proof fn lemma_verification_code_exists() -> (code: Seq<char>)
    ensures
        is_verification_code(code),
{
    Seq::new(VERIFICATION_CODE_LEN as nat, |i: int| 'A')
}

} // verus!
