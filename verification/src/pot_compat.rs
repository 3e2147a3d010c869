//! Block and header forms whose fields are plain bytes and integers, so that
//! a self-describing serializer never meets the hex-string forms of the
//! hash types.  Transactions travel as wire bytes.

use vstd::prelude::*;
use alloy_eips::eip4895::{Withdrawal, Withdrawals};
use crate::wire::{
    decode_wire, eip2718_decoded, eip2718_decodes, eip2718_encoding, encode_wire, is_wire_encoding,
    lemma_wire_roundtrip, tx_kind, wire_error_matches, wire_split, TransactionSigned, WireError,
};

verus! {

/// A block header with every hash, bloom and big number held as raw bytes.
#[derive(Clone, Debug, PartialEq, Eq)]
pub struct HeaderPot {
    pub parent_hash: [u8; 32],
    pub ommers_hash: [u8; 32],
    pub beneficiary: [u8; 20],
    pub state_root: [u8; 32],
    pub transactions_root: [u8; 32],
    pub receipts_root: [u8; 32],
    pub logs_bloom: [u8; 256],
    pub mix_hash: [u8; 32],
    /// The 8-byte proof-of-work nonce.
    pub nonce: [u8; 8],
    /// The difficulty as 32 big-endian bytes.
    pub difficulty: [u8; 32],
    pub number: u64,
    pub gas_limit: u64,
    pub gas_used: u64,
    pub timestamp: u64,
    pub extra_data: Vec<u8>,
    pub base_fee_per_gas: Option<u64>,
    pub withdrawals_root: Option<[u8; 32]>,
    pub blob_gas_used: Option<u64>,
    pub excess_blob_gas: Option<u64>,
    pub parent_beacon_block_root: Option<[u8; 32]>,
    pub requests_hash: Option<[u8; 32]>,
}

/// A block whose transactions are also kept as wire bytes (type byte
/// included), and whose withdrawals are kept as their RLP encoding.
pub struct BlockPot {
    pub header: HeaderPot,
    /// Each transaction in wire format.
    pub transactions_wire: Vec<Vec<u8>>,
    pub ommers: Vec<HeaderPot>,
    /// The transactions themselves, for callers that still hold them; not serialized.
    pub transactions: Vec<TransactionSigned>,
    /// The RLP encoding of the withdrawals list, when the block has one.
    pub withdrawals: Option<Vec<u8>>,
}

#[verifier::external_type_specification]
#[verifier::external_body]
pub struct ExWithdrawals(Withdrawals);

#[verifier::external_type_specification]
#[verifier::external_body]
pub struct ExWithdrawal(Withdrawal);

/// The RLP encoding of a withdrawals list.
pub uninterp spec fn withdrawals_encoding(w: Withdrawals) -> Seq<u8>;

/// Whether the RLP decoder of withdrawals lists accepts `bytes`.
pub uninterp spec fn withdrawals_decodes(bytes: Seq<u8>) -> bool;

/// The withdrawals list that the RLP decoder reads from `bytes`, where it accepts them.
pub uninterp spec fn withdrawals_decoded(bytes: Seq<u8>) -> Withdrawals;

/// RLP-encodes a withdrawals list with `alloy_rlp::Encodable::encode`.
/// Claimed: the bytes are `withdrawals_encoding` of the list, never empty
/// (an RLP list), and `alloy_rlp::Decodable::decode` reads the same list back.
#[verifier::external_body]
fn encode_withdrawals(w: &Withdrawals) -> (r: Vec<u8>)
    ensures
        r@ == withdrawals_encoding(*w),
        r@.len() >= 1,
        withdrawals_decodes(r@),
        withdrawals_decoded(r@) == *w,
{
    let mut buf = Vec::new();
    alloy_rlp::Encodable::encode(w, &mut buf);
    buf
}

/// Decodes a withdrawals list with `alloy_rlp::Decodable::decode`.  Claimed:
/// it succeeds exactly when `withdrawals_decodes` holds, and then gives
/// `withdrawals_decoded` of the bytes.
#[verifier::external_body]
fn decode_withdrawals(bytes: &[u8]) -> (r: Option<Withdrawals>)
    ensures
        r is Some <==> withdrawals_decodes(bytes@),
        r matches Some(w) ==> w == withdrawals_decoded(bytes@),
{
    let mut cursor = bytes;
    <Withdrawals as alloy_rlp::Decodable>::decode(&mut cursor).ok()
}

/// The empty withdrawals list, `Withdrawals::default()`.  Claimed: it
/// encodes as the empty RLP list `0xc0`.
#[verifier::external_body]
fn default_withdrawals() -> (w: Withdrawals)
    ensures
        withdrawals_encoding(w) == seq![0xc0u8],
{
    Withdrawals::default()
}

/// Whether `decode_wire` accepts the wire bytes `w`.
pub open spec fn wire_decodes(w: Seq<u8>) -> bool {
    &&& wire_split(w) is Ok
    &&& eip2718_decodes(w)
}

/// Encodes every transaction in wire format, in order.
pub fn encode_transactions_wire(transactions: &Vec<TransactionSigned>) -> (out: Vec<Vec<u8>>)
    ensures
        out@.len() == transactions@.len(),
        forall|i: int| 0 <= i < out@.len() ==> (#[trigger] out@[i])@ == eip2718_encoding(transactions@[i]),
        forall|i: int| 0 <= i < out@.len() ==> is_wire_encoding(tx_kind(transactions@[i]), #[trigger] out@[i]@),
{
    let mut out: Vec<Vec<u8>> = Vec::new();
    let mut i: usize = 0;
    while i < transactions.len()
        invariant
            i <= transactions@.len(),
            out@.len() == i,
            forall|j: int| 0 <= j < out@.len() ==> (#[trigger] out@[j])@ == eip2718_encoding(transactions@[j]),
            forall|j: int| 0 <= j < out@.len() ==> is_wire_encoding(tx_kind(transactions@[j]), #[trigger] out@[j]@),
        decreases transactions@.len() - i,
    {
        let w = encode_wire(&transactions[i]);
        out.push(w);
        i = i + 1;
    }
    out
}

/// Decodes every wire transaction, in order; stops at the first one that
/// does not decode and reports its index.
pub fn decode_transactions_wire(wire: &Vec<Vec<u8>>) -> (r: Result<Vec<TransactionSigned>, (usize, WireError)>)
    ensures
        r is Ok <==> forall|i: int| 0 <= i < wire@.len() ==> wire_decodes(#[trigger] wire@[i]@),
        r matches Ok(v) ==> v@.len() == wire@.len() && forall|i: int| 0 <= i < v@.len()
            ==> #[trigger] v@[i] == eip2718_decoded(wire@[i]@),
        r matches Err((k, e)) ==> {
            &&& k < wire@.len()
            &&& !wire_decodes(wire@[k as int]@)
            &&& wire_error_matches(wire@[k as int]@, e)
            &&& forall|i: int| 0 <= i < k ==> wire_decodes(#[trigger] wire@[i]@)
        },
{
    let mut out: Vec<TransactionSigned> = Vec::new();
    let mut i: usize = 0;
    while i < wire.len()
        invariant
            i <= wire@.len(),
            out@.len() == i,
            forall|j: int| 0 <= j < i ==> wire_decodes(#[trigger] wire@[j]@),
            forall|j: int| 0 <= j < i ==> #[trigger] out@[j] == eip2718_decoded(wire@[j]@),
        decreases wire@.len() - i,
    {
        match decode_wire(wire[i].as_slice()) {
            Ok(tx) => out.push(tx),
            Err(e) => {
                return Err((i, e));
            },
        }
        i = i + 1;
    }
    Ok(out)
}

/// The withdrawals list a rebuilt block carries: none when the block had
/// none; the empty list when the bytes are empty or do not decode; else the
/// decoded list.
pub fn block_withdrawals(w: Option<Vec<u8>>) -> (r: Option<Withdrawals>)
    ensures
        match w {
            None => r is None,
            Some(b) => r matches Some(l) && (if b@.len() > 0 && withdrawals_decodes(b@) {
                l == withdrawals_decoded(b@)
            } else {
                withdrawals_encoding(l) == seq![0xc0u8]
            }),
        },
{
    match w {
        None => None,
        Some(b) => {
            if b.len() == 0 {
                Some(default_withdrawals())
            } else {
                match decode_withdrawals(b.as_slice()) {
                    Some(l) => Some(l),
                    None => Some(default_withdrawals()),
                }
            }
        },
    }
}

impl BlockPot {
    /// Builds the serializable form of a block from its converted header and
    /// ommers, its transactions and its withdrawals: the transactions are
    /// encoded in wire format and also kept as they are; the withdrawals are
    /// kept as their RLP encoding.
    pub fn from_parts(
        header: HeaderPot,
        transactions: Vec<TransactionSigned>,
        ommers: Vec<HeaderPot>,
        withdrawals: Option<Withdrawals>,
    ) -> (b: BlockPot)
        ensures
            b.header == header,
            b.transactions == transactions,
            b.ommers == ommers,
            b.transactions_wire@.len() == transactions@.len(),
            forall|i: int| 0 <= i < b.transactions_wire@.len()
                ==> (#[trigger] b.transactions_wire@[i])@ == eip2718_encoding(transactions@[i]),
            forall|i: int| 0 <= i < b.transactions_wire@.len()
                ==> is_wire_encoding(tx_kind(transactions@[i]), #[trigger] b.transactions_wire@[i]@),
            match withdrawals {
                None => b.withdrawals is None,
                Some(l) => b.withdrawals matches Some(e) && e@ == withdrawals_encoding(l)
                    && e@.len() >= 1 && withdrawals_decodes(e@) && withdrawals_decoded(e@) == l,
            },
    {
        let transactions_wire = encode_transactions_wire(&transactions);
        let withdrawals = match &withdrawals {
            None => None,
            Some(l) => Some(encode_withdrawals(l)),
        };
        BlockPot { header, transactions_wire, ommers, transactions, withdrawals }
    }

    /// The transactions that the rebuilt block carries: the kept ones, unless
    /// none were kept and wire bytes are present, in which case they are
    /// decoded from the wire bytes, in order (the first that does not decode
    /// is reported).
    pub fn block_transactions(self) -> (r: Result<Vec<TransactionSigned>, (usize, WireError)>)
        ensures
            (self.transactions@.len() > 0 || self.transactions_wire@.len() == 0)
                ==> r == Ok::<Vec<TransactionSigned>, (usize, WireError)>(self.transactions),
            (self.transactions@.len() == 0 && self.transactions_wire@.len() > 0) ==> {
                &&& (r is Ok <==> forall|i: int| 0 <= i < self.transactions_wire@.len()
                        ==> wire_decodes(#[trigger] self.transactions_wire@[i]@))
                &&& (r matches Ok(v) ==> v@.len() == self.transactions_wire@.len()
                        && forall|i: int| 0 <= i < v@.len()
                        ==> #[trigger] v@[i] == eip2718_decoded(self.transactions_wire@[i]@))
                &&& (r matches Err((k, e)) ==> k < self.transactions_wire@.len()
                        && !wire_decodes(self.transactions_wire@[k as int]@)
                        && wire_error_matches(self.transactions_wire@[k as int]@, e))
            },
    {
        if self.transactions.len() == 0 && self.transactions_wire.len() > 0 {
            decode_transactions_wire(&self.transactions_wire)
        } else {
            Ok(self.transactions)
        }
    }
}

/// Wire bytes of a block survive a round trip: when entry `i` is the wire
/// form of transaction `i`, every entry decodes, and the transaction read
/// back from entry `i` has the kind and the wire bytes of transaction `i`,
/// in order.
pub proof fn lemma_block_wire_roundtrip(transactions: Seq<TransactionSigned>, wire: Seq<Seq<u8>>)
    requires
        wire.len() == transactions.len(),
        forall|i: int| 0 <= i < wire.len() ==> #[trigger] wire[i] == eip2718_encoding(transactions[i]),
        forall|i: int| 0 <= i < wire.len() ==> is_wire_encoding(tx_kind(transactions[i]), #[trigger] wire[i]),
    ensures
        forall|i: int| 0 <= i < wire.len() ==> wire_decodes(#[trigger] wire[i]),
        forall|i: int| 0 <= i < wire.len() ==> eip2718_encoding(eip2718_decoded(#[trigger] wire[i]))
            == eip2718_encoding(transactions[i]),
        forall|i: int| 0 <= i < wire.len() ==> tx_kind(eip2718_decoded(#[trigger] wire[i]))
            == tx_kind(transactions[i]),
{
    assert forall|i: int| 0 <= i < wire.len() implies wire_decodes(#[trigger] wire[i]) by {
        lemma_wire_roundtrip(tx_kind(transactions[i]), wire[i]);
    }
}

} // verus!
