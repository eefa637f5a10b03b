use vstd::prelude::*;
use vstd::slice::slice_to_vec;

verus! {

/// The size of a block in bytes.
pub const BLOCK_SIZE: usize = 16;

/// How many bytes are appended to a message of `len` bytes: between 1 and 16,
/// so that the padded length is the next multiple of 16 strictly above `len`.
pub open spec fn pad_len(len: nat) -> nat {
    (16 - len % 16) as nat
}

/// A message followed by its padding: `pad_len` bytes, each of which holds
/// the number `pad_len`.
pub open spec fn padded(input: Seq<u8>) -> Seq<u8> {
    let pad = pad_len(input.len());
    input + Seq::new(pad, |i: int| pad as u8)
}

/// Returns a copy of `input` extended by its padding.
pub fn padding(input: &[u8]) -> (out: Vec<u8>)
    ensures
        out@ == padded(input@),
        out@.len() == input@.len() + pad_len(input@.len()),
        1 <= out@.len() - input@.len() <= 16,
        out@.len() % 16 == 0,
{
    let mut out = slice_to_vec(input);
    let pad_size: usize = BLOCK_SIZE - input.len() % BLOCK_SIZE;
    let mut pad = vec![pad_size as u8; pad_size];
    out.append(&mut pad);
    out
}

/// The padding is never empty and never longer than a block, and it brings
/// the length to a multiple of the block size.
pub proof fn lemma_pad_len(len: nat)
    ensures
        pad_len(len) == 16 - len % 16,
        1 <= pad_len(len) <= 16,
        (len + pad_len(len)) % 16 == 0,
{
}

/// The padded length is a multiple of 16 that is strictly greater than the
/// length of the input.
pub proof fn lemma_padded_len(input: Seq<u8>)
    ensures
        padded(input).len() == input.len() + pad_len(input.len()),
        padded(input).len() % 16 == 0,
        padded(input).len() > input.len(),
{
}

/// No multiple of 16 lies strictly between the length of the input and the
/// padded length: the padded length is the smallest that is greater.
pub proof fn lemma_padded_len_is_least(input: Seq<u8>, m: nat)
    requires
        m % 16 == 0,
        m > input.len(),
    ensures
        m >= padded(input).len(),
{
}

/// The padded message starts with the input, and every byte after it holds
/// the number of bytes that were added.
pub proof fn lemma_padded_contents(input: Seq<u8>)
    ensures
        padded(input).subrange(0, input.len() as int) == input,
        forall|i: int|
            input.len() <= i < padded(input).len() ==> padded(input)[i] == pad_len(input.len()),
{
}

/// The empty message is padded to sixteen bytes that each hold 16.
pub proof fn lemma_padded_empty()
    ensures
        padded(Seq::<u8>::empty()) == Seq::new(16, |i: int| 16u8),
{
}

/// A message whose length is already a multiple of 16 gets a whole block
/// of padding; so padding a padded message adds sixteen bytes more.
pub proof fn lemma_padded_aligned(input: Seq<u8>)
    ensures
        input.len() % 16 == 0 ==> padded(input).len() == input.len() + 16,
        padded(padded(input)).len() == padded(input).len() + 16,
{
}

} // verus!
