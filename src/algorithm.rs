//! Fixed-output hash algorithms and the default one, SHA-256.

use vstd::prelude::*;

verus! {

/// Length in bytes of a digest of the default algorithm.
pub const HASHBYTES: usize = 32;

/// The digest of zero bytes under the default algorithm.
pub const EMPTY_HASH_BYTES: [u8; HASHBYTES] = [
    227, 176, 196, 66, 152, 252, 28, 20, 154, 251, 244, 200, 153, 111, 185, 36, 39, 174, 65, 228,
    100, 155, 147, 76, 164, 149, 153, 27, 120, 82, 184, 85,
];

/// A cryptographic hash function with a fixed output size.
pub trait HashAlgorithm {
    /// The digest of `input`: a function of the input bytes alone.
    spec fn digest_of(input: Seq<u8>) -> Seq<u8>;

    /// The number of bytes in every digest.
    spec fn output_len() -> nat;

    /// Runs the hash function over `input` exactly as given.
    fn digest(input: &[u8]) -> (r: Vec<u8>)
        ensures
            r@ == Self::digest_of(input@),
            r@.len() == Self::output_len(),
    ;
}

/// The SHA-256 digest of a byte sequence.
pub uninterp spec fn sha256_of(input: Seq<u8>) -> Seq<u8>;

/// Relies on sha2's `Sha256` through `Digest::digest`: the digest depends on
/// the input bytes alone and has `OutputSize = U32`, that is 32 bytes.
#[verifier::external_body]
fn sha256_digest(input: &[u8]) -> (r: Vec<u8>)
    ensures
        r@ == sha256_of(input@),
        r@.len() == 32,
{
    <sha2::Sha256 as sha2::Digest>::digest(input).to_vec()
}

/// The SHA-256 algorithm, the default.
pub struct Sha256;

impl HashAlgorithm for Sha256 {
    open spec fn digest_of(input: Seq<u8>) -> Seq<u8> {
        sha256_of(input)
    }

    open spec fn output_len() -> nat {
        HASHBYTES as nat
    }

    fn digest(input: &[u8]) -> (r: Vec<u8>) {
        sha256_digest(input)
    }
}

/// The algorithm used where none is chosen.
pub type DefaultHash = Sha256;

} // verus!
