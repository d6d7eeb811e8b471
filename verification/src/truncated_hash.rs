use sha2::{Digest, Sha384};
use vstd::prelude::*;

verus! {

/// The SHA-384 digest of `message`.
pub uninterp spec fn sha384(message: Seq<u8>) -> Seq<u8>;

/// How many bytes a SHA-384 digest has.
pub const SHA384_LENGTH: usize = 48;

/// The SHA-384 digest of `bytes`, computed by `Sha384::digest` of the crate
/// `sha2`. The digest depends on the bytes alone and is 48 bytes long.
#[verifier::external_body]
pub(crate) fn sha384_digest(bytes: &[u8]) -> (digest: Vec<u8>)
    ensures
        digest@ == sha384(bytes@),
        digest@.len() == SHA384_LENGTH,
{
    Sha384::digest(bytes).to_vec()
}

/// The last two bytes of `digest`.
pub fn last_two(digest: &[u8]) -> (suffix: [u8; 2])
    requires
        digest@.len() >= 2,
    ensures
        suffix@ == digest@.subrange(digest@.len() - 2, digest@.len() as int),
{
    let length = digest.len();
    [digest[length - 2], digest[length - 1]]
}

/// The last four bytes of `digest`.
pub fn last_four(digest: &[u8]) -> (suffix: [u8; 4])
    requires
        digest@.len() >= 4,
    ensures
        suffix@ == digest@.subrange(digest@.len() - 4, digest@.len() as int),
{
    let length = digest.len();
    [digest[length - 4], digest[length - 3], digest[length - 2], digest[length - 1]]
}

/// SHA-384 truncated to 16 bits: the last two bytes of the digest.
pub fn my_hash_16(bytes: &[u8]) -> (digest: [u8; 2])
    ensures
        digest@ == sha384(bytes@).subrange(SHA384_LENGTH - 2, SHA384_LENGTH as int),
{
    let full = sha384_digest(bytes);
    last_two(full.as_slice())
}

/// SHA-384 truncated to 32 bits: the last four bytes of the digest.
pub fn my_hash_32(bytes: &[u8]) -> (digest: [u8; 4])
    ensures
        digest@ == sha384(bytes@).subrange(SHA384_LENGTH - 4, SHA384_LENGTH as int),
{
    let full = sha384_digest(bytes);
    last_four(full.as_slice())
}

} // verus!
