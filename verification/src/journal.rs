//! The public journal of a chain-validation proof, and the witness that
//! carries the encoded inputs of a run.

use vstd::prelude::*;
use vstd::arithmetic::div_mod::{lemma_div_denominator, lemma_fundamental_div_mod};

verus! {

/// The eight big-endian bytes of `x`.
pub open spec fn be_bytes_u64(x: u64) -> Seq<u8> {
    seq![
        (x / 0x100000000000000) as u8,
        (x / 0x1000000000000 % 0x100) as u8,
        (x / 0x10000000000 % 0x100) as u8,
        (x / 0x100000000 % 0x100) as u8,
        (x / 0x1000000 % 0x100) as u8,
        (x / 0x10000 % 0x100) as u8,
        (x / 0x100 % 0x100) as u8,
        (x % 0x100) as u8,
    ]
}

/// The number that eight big-endian bytes write.
pub open spec fn be_value_u64(b: Seq<u8>) -> int {
    ((((((b[0] as int * 0x100 + b[1]) * 0x100 + b[2]) * 0x100 + b[3]) * 0x100 + b[4]) * 0x100
        + b[5]) * 0x100 + b[6]) * 0x100 + b[7]
}

/// The big-endian bytes of a 64-bit number, as `u64::to_be_bytes` lays them out.
pub fn u64_to_be_bytes(x: u64) -> (b: [u8; 8])
    ensures
        b@ == be_bytes_u64(x),
{
    let b: [u8; 8] = [
        (x / 0x100000000000000) as u8,
        (x / 0x1000000000000 % 0x100) as u8,
        (x / 0x10000000000 % 0x100) as u8,
        (x / 0x100000000 % 0x100) as u8,
        (x / 0x1000000 % 0x100) as u8,
        (x / 0x10000 % 0x100) as u8,
        (x / 0x100 % 0x100) as u8,
        (x % 0x100) as u8,
    ];
    assert(b@ == be_bytes_u64(x));
    b
}

/// Reading the big-endian bytes of a number gives the number back.
pub proof fn lemma_be_bytes_u64_roundtrip(x: u64)
    ensures
        be_bytes_u64(x).len() == 8,
        be_value_u64(be_bytes_u64(x)) == x,
{
    let xi = x as int;
    let q1 = xi / 0x100;
    let q2 = q1 / 0x100;
    let q3 = q2 / 0x100;
    let q4 = q3 / 0x100;
    let q5 = q4 / 0x100;
    let q6 = q5 / 0x100;
    let q7 = q6 / 0x100;
    lemma_fundamental_div_mod(xi, 0x100);
    lemma_fundamental_div_mod(q1, 0x100);
    lemma_fundamental_div_mod(q2, 0x100);
    lemma_fundamental_div_mod(q3, 0x100);
    lemma_fundamental_div_mod(q4, 0x100);
    lemma_fundamental_div_mod(q5, 0x100);
    lemma_fundamental_div_mod(q6, 0x100);
    lemma_div_denominator(xi, 0x100, 0x100);
    lemma_div_denominator(xi, 0x10000, 0x100);
    lemma_div_denominator(xi, 0x1000000, 0x100);
    lemma_div_denominator(xi, 0x100000000, 0x100);
    lemma_div_denominator(xi, 0x10000000000, 0x100);
    lemma_div_denominator(xi, 0x1000000000000, 0x100);
    assert(xi / 0x10000 == q2);
    assert(xi / 0x1000000 == q3);
    assert(xi / 0x100000000 == q4);
    assert(xi / 0x10000000000 == q5);
    assert(xi / 0x1000000000000 == q6);
    assert(xi / 0x100000000000000 == q7);
    assert(q7 < 0x100);
    let b = be_bytes_u64(x);
    assert(b[0] as int == q7);
    assert(b[1] as int == q6 % 0x100);
    assert(b[2] as int == q5 % 0x100);
    assert(b[3] as int == q4 % 0x100);
    assert(b[4] as int == q3 % 0x100);
    assert(b[5] as int == q2 % 0x100);
    assert(b[6] as int == q1 % 0x100);
    assert(b[7] as int == xi % 0x100);
}

/// The number of the newest block of a run of `block_count` blocks that
/// starts at `block_number`.
pub fn tip_block_number(block_number: u64, block_count: u64) -> (tip: u64)
    requires
        block_number + block_count <= u64::MAX,
        block_number + block_count >= 1,
    ensures
        tip == block_number + block_count - 1,
{
    block_number + block_count - 1
}

/// The journal layout: chain id, tip block hash, final total difficulty, block count.
pub open spec fn journal_layout(chain_id: u64, tip_hash: Seq<u8>, final_difficulty: Seq<u8>, block_count: u64) -> Seq<u8> {
    be_bytes_u64(chain_id) + tip_hash + final_difficulty + be_bytes_u64(block_count)
}

fn append_bytes(out: &mut Vec<u8>, bytes: &[u8])
    ensures
        final(out)@ == old(out)@ + bytes@,
{
    let mut i: usize = 0;
    while i < bytes.len()
        invariant
            i <= bytes@.len(),
            out@ == old(out)@ + bytes@.subrange(0, i as int),
        decreases bytes@.len() - i,
    {
        out.push(bytes[i]);
        i = i + 1;
        assert(bytes@.subrange(0, i as int) == bytes@.subrange(0, i - 1).push(bytes@[i - 1]));
    }
    assert(bytes@.subrange(0, bytes@.len() as int) == bytes@);
}

/// The journal that a run commits to: the chain id (8 bytes, big-endian),
/// the hash of the tip header (32 bytes), the final total difficulty
/// (32 bytes, big-endian) and the block count (8 bytes, big-endian).
pub fn journal_bytes(chain_id: u64, tip_hash: &[u8; 32], final_difficulty: &[u8; 32], block_count: u64) -> (j: Vec<u8>)
    ensures
        j@ == journal_layout(chain_id, tip_hash@, final_difficulty@, block_count),
{
    let mut j: Vec<u8> = Vec::new();
    append_bytes(&mut j, &u64_to_be_bytes(chain_id));
    append_bytes(&mut j, tip_hash);
    append_bytes(&mut j, final_difficulty);
    append_bytes(&mut j, &u64_to_be_bytes(block_count));
    j
}

/// A journal is 80 bytes, and its first and last eight bytes read back as
/// the chain id and the block count; bytes 8 to 40 are the tip hash and
/// bytes 40 to 72 the final difficulty.
pub proof fn lemma_journal_fields(chain_id: u64, tip_hash: Seq<u8>, final_difficulty: Seq<u8>, block_count: u64)
    requires
        tip_hash.len() == 32,
        final_difficulty.len() == 32,
    ensures
        journal_layout(chain_id, tip_hash, final_difficulty, block_count).len() == 80,
        be_value_u64(journal_layout(chain_id, tip_hash, final_difficulty, block_count).subrange(0, 8)) == chain_id,
        journal_layout(chain_id, tip_hash, final_difficulty, block_count).subrange(8, 40) == tip_hash,
        journal_layout(chain_id, tip_hash, final_difficulty, block_count).subrange(40, 72) == final_difficulty,
        be_value_u64(journal_layout(chain_id, tip_hash, final_difficulty, block_count).subrange(72, 80)) == block_count,
{
    let j = journal_layout(chain_id, tip_hash, final_difficulty, block_count);
    lemma_be_bytes_u64_roundtrip(chain_id);
    lemma_be_bytes_u64_roundtrip(block_count);
    assert(j.subrange(0, 8) == be_bytes_u64(chain_id));
    assert(j.subrange(8, 40) == tip_hash);
    assert(j.subrange(40, 72) == final_difficulty);
    assert(j.subrange(72, 80) == be_bytes_u64(block_count));
}

/// The encoded inputs of a validation run, with the blocks that bound it.
#[derive(Debug, Clone)]
pub struct Witness {
    pub encoded_rkyv_input: Vec<u8>,
    pub encoded_chain_input: Vec<u8>,
    pub validated_tip_hash: [u8; 32],
    pub validated_tip_number: u64,
    pub validated_tail_hash: [u8; 32],
    pub validated_tail_number: u64,
    /// The chain id.
    pub chain: u64,
}

/// The id of Ethereum mainnet, the chain a witness names by default.
pub const MAINNET_CHAIN_ID: u64 = 1;

impl Default for Witness {
    /// An empty witness for mainnet: no inputs, zero hashes and numbers.
    fn default() -> (w: Witness)
        ensures
            w.encoded_rkyv_input@.len() == 0,
            w.encoded_chain_input@.len() == 0,
            w.validated_tip_hash@ == Seq::new(32, |i: int| 0u8),
            w.validated_tip_number == 0,
            w.validated_tail_hash@ == Seq::new(32, |i: int| 0u8),
            w.validated_tail_number == 0,
            w.chain == MAINNET_CHAIN_ID,
    {
        let w = Witness {
            encoded_rkyv_input: Vec::new(),
            encoded_chain_input: Vec::new(),
            validated_tip_hash: [0u8; 32],
            validated_tip_number: 0,
            validated_tail_hash: [0u8; 32],
            validated_tail_number: 0,
            chain: MAINNET_CHAIN_ID,
        };
        assert(w.validated_tip_hash@ =~= Seq::new(32, |i: int| 0u8));
        assert(w.validated_tail_hash@ =~= Seq::new(32, |i: int| 0u8));
        w
    }
}

} // verus!
