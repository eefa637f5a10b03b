use vstd::prelude::*;
use crate::table::{subst, substitute};

verus! {

/// The size of the compression state in bytes.
pub const STATE_SIZE: usize = 48;

/// The number of mixing rounds that each block goes through.
pub const ROUNDS: u8 = 18;

/// The state before any block is absorbed: 48 zero bytes.
pub open spec fn initial_state() -> Seq<u8> {
    Seq::new(48, |k: int| 0u8)
}

/// The state with a block loaded: the first third stays, the second third
/// is the block, the last third is the xor of the two.
pub open spec fn load_block(state: Seq<u8>, block: Seq<u8>) -> Seq<u8> {
    Seq::new(
        48,
        |k: int|
            if k < 16 {
                state[k]
            } else if k < 32 {
                block[k - 16]
            } else {
                state[k - 32] ^ block[k - 32]
            },
    )
}

/// The carried byte of one round after the first `n` positions of `state`
/// have been mixed, starting from the carry `t`: each position is replaced
/// by itself xor the table entry for the carry, and becomes the next carry.
pub open spec fn carried_byte(state: Seq<u8>, t: u8, n: nat) -> u8
    decreases n,
{
    if n == 0 {
        t
    } else {
        state[n - 1] ^ subst(carried_byte(state, t, (n - 1) as nat))
    }
}

/// The state after one round that starts from the carry `t`.
pub open spec fn mix(state: Seq<u8>, t: u8) -> Seq<u8> {
    Seq::new(48, |k: int| carried_byte(state, t, (k + 1) as nat))
}

/// The state and the carry after `n` rounds. The carry starts at zero; after
/// round number `r` (counted from zero) it is the last byte of the state
/// plus `r`, modulo 256.
pub open spec fn rounds(state: Seq<u8>, n: nat) -> (Seq<u8>, u8)
    decreases n,
{
    if n == 0 {
        (state, 0u8)
    } else {
        let (s, t) = rounds(state, (n - 1) as nat);
        let m = mix(s, t);
        (m, ((m[47] + (n - 1)) % 256) as u8)
    }
}

/// The state after a block has been absorbed: the block is loaded and
/// eighteen rounds are run, the first of them from a zero carry. No carry
/// passes from one block to the next.
pub open spec fn absorb_block(state: Seq<u8>, block: Seq<u8>) -> Seq<u8> {
    rounds(load_block(state, block), 18).0
}

/// Block number `i` of `data`, counted from zero.
pub open spec fn block_at(data: Seq<u8>, i: int) -> Seq<u8> {
    data.subrange(16 * i, 16 * i + 16)
}

/// The state after the first `n` blocks of `data` have been absorbed.
pub open spec fn absorb(data: Seq<u8>, n: nat) -> Seq<u8>
    decreases n,
{
    if n == 0 {
        initial_state()
    } else {
        absorb_block(absorb(data, (n - 1) as nat), block_at(data, n - 1))
    }
}

/// The digest of a buffer of blocks: the first 16 bytes of the state after
/// all whole blocks of `data` have been absorbed.
pub open spec fn compressed(data: Seq<u8>) -> Seq<u8> {
    absorb(data, data.len() / 16).subrange(0, 16)
}

/// Runs one round over `state`, starting from the carry `t`, and returns the
/// last byte written.
pub fn mix_round(state: &mut [u8; 48], t: u8) -> (last: u8)
    ensures
        final(state)@ == mix(old(state)@, t),
        last == final(state)@[47],
{
    let ghost before = state@;
    let mut carry = t;
    for k in 0..STATE_SIZE
        invariant
            carry == carried_byte(before, t, k as nat),
            forall|i: int| 0 <= i < k ==> state@[i] == carried_byte(before, t, (i + 1) as nat),
            forall|i: int| k <= i < 48 ==> state@[i] == before[i],
    {
        carry = state[k] ^ substitute(carry);
        state[k] = carry;
    }
    carry
}

/// Absorbs one block into `state`: loads it and runs the eighteen rounds,
/// starting from a zero carry.
pub fn compress_block(state: &mut [u8; 48], block: &[u8; 16])
    ensures
        final(state)@ == absorb_block(old(state)@, block@),
{
    let ghost before = state@;
    for j in 0..16usize
        invariant
            forall|i: int| 0 <= i < 16 ==> state@[i] == before[i],
            forall|i: int| 16 <= i < 16 + j ==> state@[i] == block@[i - 16],
            forall|i: int| 32 <= i < 32 + j ==> state@[i] == before[i - 32] ^ block@[i - 32],
    {
        state[16 + j] = block[j];
        state[32 + j] = state[j] ^ block[j];
    }
    assert(state@ == load_block(before, block@));
    let ghost loaded = state@;
    let mut t: u8 = 0;
    for r in 0..ROUNDS
        invariant
            (state@, t) == rounds(loaded, r as nat),
    {
        let last = mix_round(state, t);
        t = last.wrapping_add(r);
    }
}

/// Absorbs every whole block of `data` into a fresh state and returns the
/// first 16 bytes of the state.
pub fn compress(data: &[u8]) -> (digest: [u8; 16])
    ensures
        digest@ == compressed(data@),
{
    let mut state = [0u8; 48];
    assert(state@ == initial_state());
    let blocks = data.len() / 16;
    for i in 0..blocks
        invariant
            blocks == data.len() / 16,
            state@ == absorb(data@, i as nat),
    {
        let mut block = [0u8; 16];
        for j in 0..16usize
            invariant
                i < blocks,
                blocks == data.len() / 16,
                forall|k: int| 0 <= k < j ==> block@[k] == data@[16 * i + k],
        {
            block[j] = data[i * 16 + j];
        }
        assert(block@ == block_at(data@, i as int));
        compress_block(&mut state, &block);
    }
    let mut digest = [0u8; 16];
    for i in 0..16usize
        invariant
            forall|k: int| 0 <= k < i ==> digest@[k] == state@[k],
    {
        digest[i] = state[i];
    }
    digest
}

/// The state has 48 bytes after any number of blocks.
pub proof fn lemma_absorb_len(data: Seq<u8>, n: nat)
    ensures
        absorb(data, n).len() == 48,
{
    if n > 0 {
        let loaded = load_block(absorb(data, (n - 1) as nat), block_at(data, n - 1));
        assert(rounds(loaded, 18).0.len() == 48);
    }
}

/// The digest of a buffer has 16 bytes, whatever the buffer holds.
pub proof fn lemma_compressed_len(data: Seq<u8>)
    ensures
        compressed(data).len() == 16,
{
    lemma_absorb_len(data, data.len() / 16);
}

} // verus!
