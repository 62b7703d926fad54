use rand::distr::{Alphanumeric, SampleString};
use vstd::prelude::*;

verus! {

/// Whether `c` is one of the 62 characters `A`-`Z`, `a`-`z`, `0`-`9`.
pub open spec fn is_alphanumeric(c: char) -> bool {
    ||| 'A' <= c <= 'Z'
    ||| 'a' <= c <= 'z'
    ||| '0' <= c <= '9'
}

/// Whether `id` has the shape of a generated identifier: `length`
/// characters, each of them alphanumeric.
pub open spec fn is_identifier(id: Seq<char>, length: nat) -> bool {
    &&& id.len() == length
    &&& forall|i: int| 0 <= i < id.len() ==> is_alphanumeric(#[trigger] id[i])
}

/// Calls `rand::distr::Alphanumeric.sample_string` with the thread-local
/// generator `rand::rng()`. The string is made of `length` samples of the
/// distribution, each an ASCII letter or digit; which ones is left open.
/// The call panics if the operating system gives the generator no seed.
#[verifier::external_body]
pub(crate) fn random_identifier(length: usize) -> (id: String)
    ensures
        is_identifier(id@, length as nat),
{
    Alphanumeric.sample_string(&mut rand::rng(), length)
}

} // verus!
