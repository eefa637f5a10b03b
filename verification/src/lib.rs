//! MD2 message digest: a 128-bit fingerprint of a byte sequence.
//!
//! The digest is computed in three steps, each a pure function of the bytes
//! it is given: the input is padded to a whole number of 16-byte blocks,
//! a 16-byte checksum block is appended, and the blocks are absorbed one by
//! one into a 48-byte state whose first third is the digest.

use vstd::prelude::*;

pub mod checksum;
pub mod compress;
pub mod hex;
pub mod padding;
pub mod table;

use crate::checksum::{append_checksum, lemma_with_checksum_len, with_checksum};
use crate::compress::{compress, compressed, lemma_compressed_len};
use crate::padding::{lemma_padded_len, pad_len, padded, padding};

verus! {

/// The digest of a message, as a sequence of 16 bytes.
pub open spec fn md2(input: Seq<u8>) -> Seq<u8> {
    compressed(with_checksum(padded(input)))
}

/// Computes the digest of `input`.
///
/// Every byte sequence has a digest. The input is only read, and the result
/// depends on nothing but the bytes of the input.
pub fn digest(input: &[u8]) -> (result: [u8; 16])
    ensures
        result@ == md2(input@),
        result@.len() == 16,
{
    let mut buffer = padding(input);
    let buffer = append_checksum(&mut buffer);
    compress(buffer.as_slice())
}

/// The digest of every message has exactly 16 bytes.
pub proof fn lemma_md2_len(input: Seq<u8>)
    ensures
        md2(input).len() == 16,
{
    lemma_compressed_len(with_checksum(padded(input)));
}

/// The buffer that is compressed holds the message, its padding and the
/// checksum block: a whole number of blocks, at least two.
pub proof fn lemma_md2_buffer_len(input: Seq<u8>)
    ensures
        with_checksum(padded(input)).len() == input.len() + pad_len(input.len()) + 16,
        with_checksum(padded(input)).len() % 16 == 0,
        with_checksum(padded(input)).len() >= 32,
{
    lemma_padded_len(input);
    lemma_with_checksum_len(padded(input));
}

/// The digest is a function of the message: two results that `digest` may
/// return for one and the same message, in whatever order and with whatever
/// other calls in between, are equal byte for byte.
pub proof fn lemma_digest_repeatable(input: Seq<u8>, first: [u8; 16], second: [u8; 16])
    requires
        first@ == md2(input),
        second@ == md2(input),
    ensures
        first == second,
{
    assert(first@ =~= second@);
    assert(first =~= second);
}

} // verus!
