//! The SHA-256 digest that hashlocks commit to.
use vstd::prelude::*;
use vstd::utf8::encode_utf8;
use sha2::Digest;

verus! {

/// The SHA-256 digest of a byte string.
pub uninterp spec fn sha256_of(data: Seq<u8>) -> Seq<u8>;

/// Relies on `sha2::Sha256::digest` (through `sha2::Digest`): the 32-byte
/// SHA-256 digest of the UTF-8 bytes of `preimage`.
#[verifier::external_body]
pub(crate) fn sha256_digest(preimage: &str) -> (r: Vec<u8>)
    ensures
        r@ == sha256_of(encode_utf8(preimage@)),
        r@.len() == 32,
{
    sha2::Sha256::digest(preimage.as_bytes()).to_vec()
}

/// Compares two byte strings.
pub fn bytes_equal(a: &[u8], b: &[u8]) -> (r: bool)
    ensures
        r == (a@ == b@),
{
    if a.len() != b.len() {
        return false;
    }
    let mut i: usize = 0;
    while i < a.len()
        invariant
            a@.len() == b@.len(),
            i <= a@.len(),
            forall|j: int| 0 <= j < i ==> a@[j] == b@[j],
        decreases a@.len() - i,
    {
        if a[i] != b[i] {
            return false;
        }
        i = i + 1;
    }
    assert(a@ =~= b@);
    true
}

} // verus!
