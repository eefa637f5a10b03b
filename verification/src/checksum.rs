use vstd::prelude::*;
use crate::padding::BLOCK_SIZE;
use crate::table::{lemma_subst_injective, subst, substitute};

verus! {

/// The running byte after the first `n` bytes of `data` have been read:
/// it starts at zero, and each byte read replaces it by the table entry
/// for that byte xor the running byte.
pub open spec fn running_byte(data: Seq<u8>, n: nat) -> u8
    decreases n,
{
    if n == 0 {
        0u8
    } else {
        subst(data[n - 1] ^ running_byte(data, (n - 1) as nat))
    }
}

/// The number of bytes of `data` that lie in whole blocks.
pub open spec fn whole_blocks_len(data: Seq<u8>) -> nat {
    (data.len() / 16 * 16) as nat
}

/// The checksum block of `data`: position `j` holds the running byte as it
/// stood right after byte `j` of the last whole block was read. Data shorter
/// than one block has an all-zero checksum; bytes after the last whole block
/// are not read.
pub open spec fn checksum_block(data: Seq<u8>) -> Seq<u8> {
    let end = whole_blocks_len(data);
    Seq::new(
        16,
        |j: int|
            if end == 0 {
                0u8
            } else {
                running_byte(data, (end - 16 + j + 1) as nat)
            },
    )
}

/// `data` followed by its checksum block.
pub open spec fn with_checksum(data: Seq<u8>) -> Seq<u8> {
    data + checksum_block(data)
}

/// Appends to `input` its checksum block and hands the same buffer back.
pub fn append_checksum(input: &mut Vec<u8>) -> (out: &mut Vec<u8>)
    ensures
        out@ == with_checksum(old(input)@),
        out@.len() == old(input)@.len() + 16,
        *final(input) == *final(out),
{
    let len = input.len();
    let ghost data = input@;
    let mut cs: Vec<u8> = vec![0u8; 16];
    let mut last: u8 = 0;
    for i in 0..len / BLOCK_SIZE
        invariant
            input@ == data,
            len == data.len(),
            cs@.len() == 16,
            last == running_byte(data, (16 * i) as nat),
            forall|j: int|
                0 <= j < 16 ==> cs@[j] == if i == 0 {
                    0u8
                } else {
                    running_byte(data, (16 * (i - 1) + j + 1) as nat)
                },
    {
        for j in 0..BLOCK_SIZE
            invariant
                input@ == data,
                len == data.len(),
                i < len / BLOCK_SIZE,
                cs@.len() == 16,
                last == running_byte(data, (16 * i + j) as nat),
                forall|k: int| 0 <= k < j ==> cs@[k] == running_byte(data, (16 * i + k + 1) as nat),
        {
            let c = input[i * BLOCK_SIZE + j];
            let val = substitute(c ^ last);
            cs[j] = val;
            last = val;
        }
    }
    input.append(&mut cs);
    input
}

/// The checksum block has sixteen bytes and is appended behind the data,
/// which stay as they are; data of whole blocks stay data of whole blocks.
pub proof fn lemma_with_checksum_len(data: Seq<u8>)
    ensures
        checksum_block(data).len() == 16,
        with_checksum(data).len() == data.len() + 16,
        with_checksum(data).subrange(0, data.len() as int) == data,
        data.len() % 16 == 0 ==> with_checksum(data).len() % 16 == 0,
{
}

/// Xor with one and the same byte keeps two different bytes different.
proof fn lemma_xor_keeps_apart(a: u8, b: u8, c: u8)
    by (bit_vector)
    requires
        a != b,
    ensures
        a ^ c != b ^ c,
        c ^ a != c ^ b,
{
}

/// The running byte after `n` bytes depends on those `n` bytes only.
pub proof fn lemma_running_byte_of_equal_prefix(x: Seq<u8>, y: Seq<u8>, n: nat)
    requires
        n <= x.len(),
        n <= y.len(),
        forall|i: int| 0 <= i < n ==> x[i] == y[i],
    ensures
        running_byte(x, n) == running_byte(y, n),
    decreases n,
{
    if n > 0 {
        lemma_running_byte_of_equal_prefix(x, y, (n - 1) as nat);
    }
}

/// Where two sequences differ in the byte at `p` and agree in every other
/// byte before `n`, their running bytes differ at every point after `p`:
/// a changed byte is never forgotten.
pub proof fn lemma_running_byte_keeps_a_change(x: Seq<u8>, y: Seq<u8>, p: nat, n: nat)
    requires
        p < n <= x.len(),
        n <= y.len(),
        x[p as int] != y[p as int],
        forall|i: int| 0 <= i < n && i != p ==> x[i] == y[i],
    ensures
        running_byte(x, n) != running_byte(y, n),
    decreases n,
{
    let before_x = running_byte(x, (n - 1) as nat);
    let before_y = running_byte(y, (n - 1) as nat);
    if n == p + 1 {
        lemma_running_byte_of_equal_prefix(x, y, p);
        lemma_xor_keeps_apart(x[p as int], y[p as int], before_x);
    } else {
        lemma_running_byte_keeps_a_change(x, y, p, (n - 1) as nat);
        lemma_xor_keeps_apart(before_x, before_y, x[n - 1]);
    }
    lemma_subst_injective(x[n - 1] ^ before_x, y[n - 1] ^ before_y);
}

/// The checksum depends on every byte that lies in a whole block: two
/// sequences of one length that differ in exactly one such byte have
/// different checksum blocks.
pub proof fn lemma_checksum_detects_a_changed_byte(x: Seq<u8>, y: Seq<u8>, p: nat)
    requires
        x.len() == y.len(),
        p < whole_blocks_len(x),
        x[p as int] != y[p as int],
        forall|i: int| 0 <= i < x.len() && i != p ==> x[i] == y[i],
    ensures
        checksum_block(x)[15] != checksum_block(y)[15],
        checksum_block(x) != checksum_block(y),
{
    lemma_running_byte_keeps_a_change(x, y, p, whole_blocks_len(x));
}

} // verus!
