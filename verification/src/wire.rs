//! Transaction wire format: the EIP-2718 bytes of a transaction as they
//! appear in a block, the type byte (0x01 to 0x04) in front of the RLP list
//! of a typed transaction, and the bare RLP list of a legacy one.

use vstd::prelude::*;
use alloy_consensus::{EthereumTxEnvelope, TxEip4844};
use alloy_eips::eip2718::{Decodable2718, Encodable2718};

verus! {

/// The transaction kinds that an Ethereum block may carry.
#[derive(Clone, Copy, Debug, PartialEq, Eq)]
pub enum TxType {
    Legacy,
    Eip2930,
    Eip1559,
    Eip4844,
    Eip7702,
}

/// The EIP-2718 type byte of a kind (legacy transactions have none; 0 by convention).
pub open spec fn spec_type_byte(ty: TxType) -> u8 {
    match ty {
        TxType::Legacy => 0x00,
        TxType::Eip2930 => 0x01,
        TxType::Eip1559 => 0x02,
        TxType::Eip4844 => 0x03,
        TxType::Eip7702 => 0x04,
    }
}

/// What the wire format puts in front of the signed RLP list.
pub open spec fn type_prefix(ty: TxType) -> Seq<u8> {
    if ty == TxType::Legacy {
        Seq::empty()
    } else {
        seq![spec_type_byte(ty)]
    }
}

/// The wire bytes of a transaction of kind `ty` whose signed RLP list is `payload`.
pub open spec fn wire_frame(ty: TxType, payload: Seq<u8>) -> Seq<u8> {
    type_prefix(ty) + payload
}

/// A signed Ethereum transaction as blocks carry it.
pub type TransactionSigned = EthereumTxEnvelope<TxEip4844>;

#[verifier::external_type_specification]
#[verifier::external_body]
#[verifier::reject_recursive_types(Eip4844)]
pub struct ExEthereumTxEnvelope<Eip4844>(EthereumTxEnvelope<Eip4844>);

#[verifier::external_type_specification]
#[verifier::external_body]
pub struct ExTxEip4844(TxEip4844);

#[verifier::external_type_specification]
#[verifier::external_body]
pub struct ExRlpError(alloy_rlp::Error);

/// Why wire bytes are refused before any RLP is read.
#[derive(Clone, Copy, Debug, PartialEq, Eq)]
pub enum WireFault {
    /// No bytes at all, or a type byte with nothing after it.
    InputTooShort,
    /// The first byte is neither an RLP list prefix nor a known type byte.
    InvalidFormat,
}

/// Why `decode_wire` refused its input.
#[derive(Clone, Copy, Debug, PartialEq, Eq)]
pub enum WireError {
    /// No bytes at all, or a type byte with nothing after it.
    InputTooShort,
    /// The first byte is neither an RLP list prefix nor a known type byte.
    InvalidFormat,
    /// The EIP-2718 decoder refused the bytes (its error as an RLP error).
    Rlp(alloy_rlp::Error),
}

/// The error that `decode_wire` reports for a framing fault.
pub open spec fn fault_error(f: WireFault) -> WireError {
    match f {
        WireFault::InputTooShort => WireError::InputTooShort,
        WireFault::InvalidFormat => WireError::InvalidFormat,
    }
}

/// The error that `decode_wire` gives for wire bytes `w` that it refuses,
/// as far as it is fixed: the framing fault, or some RLP error.
pub open spec fn wire_error_matches(w: Seq<u8>, e: WireError) -> bool {
    match wire_split(w) {
        Err(f) => e == fault_error(f),
        Ok(_) => e is Rlp,
    }
}

/// Where the RLP list starts inside wire bytes `b`: after the type byte of a
/// typed transaction, at 0 for a legacy one (whose first byte is an RLP list
/// prefix).
pub open spec fn wire_split(b: Seq<u8>) -> Result<int, WireFault> {
    if b.len() == 0 {
        Err(WireFault::InputTooShort)
    } else if b[0] >= 0xc0 {
        Ok(0)
    } else if b[0] <= 0x04 {
        if b.len() < 2 {
            Err(WireFault::InputTooShort)
        } else {
            Ok(1)
        }
    } else {
        Err(WireFault::InvalidFormat)
    }
}

/// Finds where the RLP list starts inside wire bytes.
pub fn split_wire(bytes: &[u8]) -> (r: Result<usize, WireFault>)
    ensures
        match r {
            Ok(k) => wire_split(bytes@) == Ok::<int, WireFault>(k as int),
            Err(f) => wire_split(bytes@) == Err::<int, WireFault>(f),
        },
{
    if bytes.len() == 0 {
        return Err(WireFault::InputTooShort);
    }
    let first = bytes[0];
    if first >= 0xc0 {
        Ok(0)
    } else if first <= 0x04 {
        if bytes.len() < 2 {
            Err(WireFault::InputTooShort)
        } else {
            Ok(1)
        }
    } else {
        Err(WireFault::InvalidFormat)
    }
}

/// The kind of a transaction (its variant).
pub uninterp spec fn tx_kind(tx: TransactionSigned) -> TxType;

/// The EIP-2718 encoding of a transaction: what `Encodable2718::encode_2718` writes.
pub uninterp spec fn eip2718_encoding(tx: TransactionSigned) -> Seq<u8>;

/// Whether `Decodable2718::decode_2718` accepts `bytes` (reading from their start).
pub uninterp spec fn eip2718_decodes(bytes: Seq<u8>) -> bool;

/// The transaction that `Decodable2718::decode_2718` reads from `bytes`, where it accepts them.
pub uninterp spec fn eip2718_decoded(bytes: Seq<u8>) -> TransactionSigned;

/// The shape of the EIP-2718 encoding `enc` of a transaction of kind `ty`:
/// the type byte (none for legacy) in front of an RLP list.
pub open spec fn eip2718_shape(ty: TxType, enc: Seq<u8>) -> bool {
    let body = enc.skip(type_prefix(ty).len() as int);
    &&& enc == wire_frame(ty, body)
    &&& body.len() >= 1
    &&& body[0] >= 0xc0
}

/// Whether `w` is wire bytes of kind `ty` that decode to a transaction of the
/// same kind whose own wire bytes are `w` again.
pub open spec fn is_wire_encoding(ty: TxType, w: Seq<u8>) -> bool {
    &&& eip2718_shape(ty, w)
    &&& eip2718_decodes(w)
    &&& eip2718_encoding(eip2718_decoded(w)) == w
    &&& tx_kind(eip2718_decoded(w)) == ty
}

/// EIP-2718-encodes `tx` with `Encodable2718::encode_2718` and tells its kind
/// apart by its variant.  Claimed of the encoder, as its source writes it:
/// the bytes are the type byte of the kind (none for legacy) followed by the
/// RLP list of the signed transaction; `decode_2718` accepts them and reads
/// back a transaction of the same kind that encodes to the same bytes.  That
/// the transaction read back equals `tx` is not claimed (its recorded hash
/// may differ).
#[verifier::external_body]
fn eip2718_encode(tx: &TransactionSigned) -> (r: (TxType, Vec<u8>))
    ensures
        r.0 == tx_kind(*tx),
        r.1@ == eip2718_encoding(*tx),
        eip2718_shape(r.0, r.1@),
        eip2718_decodes(r.1@),
        eip2718_encoding(eip2718_decoded(r.1@)) == r.1@,
        tx_kind(eip2718_decoded(r.1@)) == r.0,
{
    let mut out = Vec::new();
    tx.encode_2718(&mut out);
    let ty = match tx {
        EthereumTxEnvelope::Legacy(_) => TxType::Legacy,
        EthereumTxEnvelope::Eip2930(_) => TxType::Eip2930,
        EthereumTxEnvelope::Eip1559(_) => TxType::Eip1559,
        EthereumTxEnvelope::Eip4844(_) => TxType::Eip4844,
        EthereumTxEnvelope::Eip7702(_) => TxType::Eip7702,
    };
    (ty, out)
}

/// Decodes a signed transaction from the start of `bytes` with
/// `Decodable2718::decode_2718`.  Claimed: it succeeds exactly when
/// `eip2718_decodes` holds of the bytes, and then gives `eip2718_decoded`
/// of them.  Also claimed, as the decoder's source checks it: a first byte
/// up to 0x7f is a type byte, and a transaction is read only when that byte
/// is not 0x00 and is the type of the transaction read; any other first byte
/// reads only a legacy transaction.  Its error is handed out as an RLP error
/// (`From`); which error comes out is not claimed.
#[verifier::external_body]
fn eip2718_decode(bytes: &[u8]) -> (r: Result<TransactionSigned, alloy_rlp::Error>)
    ensures
        r is Ok <==> eip2718_decodes(bytes@),
        r matches Ok(t) ==> t == eip2718_decoded(bytes@),
        r matches Ok(t) ==> bytes@.len() >= 1 && (if bytes@[0] <= 0x7f {
            tx_kind(t) != TxType::Legacy && spec_type_byte(tx_kind(t)) == bytes@[0]
        } else {
            tx_kind(t) == TxType::Legacy
        }),
{
    let mut cursor = bytes;
    <TransactionSigned as Decodable2718>::decode_2718(&mut cursor).map_err(alloy_rlp::Error::from)
}

/// Return the exact byte string that appears in the block: the EIP-2718
/// bytes, with the type byte (0x01 to 0x04) in front of the RLP list of a
/// typed transaction and nothing in front of a legacy one.
pub fn encode_wire(tx: &TransactionSigned) -> (out: Vec<u8>)
    ensures
        out@ == eip2718_encoding(*tx),
        is_wire_encoding(tx_kind(*tx), out@),
{
    let (_ty, enc) = eip2718_encode(tx);
    enc
}

/// Parse wire bytes (typed or legacy) back into a signed transaction: bytes
/// that start with an RLP list prefix give a legacy transaction, bytes that
/// start with a type byte a transaction of that type (a 0x00 type byte is refused).
pub fn decode_wire(bytes: &[u8]) -> (r: Result<TransactionSigned, WireError>)
    ensures
        match wire_split(bytes@) {
            Err(f) => r == Err::<TransactionSigned, WireError>(fault_error(f)),
            Ok(k) => {
                &&& (r is Ok <==> eip2718_decodes(bytes@))
                &&& (r matches Ok(t) ==> t == eip2718_decoded(bytes@))
                &&& (r matches Ok(t) ==> k == 0 ==> tx_kind(t) == TxType::Legacy)
                &&& (r matches Ok(t) ==> k == 1 ==> tx_kind(t) != TxType::Legacy
                        && spec_type_byte(tx_kind(t)) == bytes@[0])
                &&& (r matches Err(e) ==> e is Rlp)
            },
        },
{
    match split_wire(bytes) {
        Err(WireFault::InputTooShort) => Err(WireError::InputTooShort),
        Err(WireFault::InvalidFormat) => Err(WireError::InvalidFormat),
        Ok(_k) => match eip2718_decode(bytes) {
            Ok(tx) => Ok(tx),
            Err(e) => Err(WireError::Rlp(e)),
        },
    }
}

/// The Keccak-256 digest of `bytes`.
pub uninterp spec fn keccak256_digest(bytes: Seq<u8>) -> Seq<u8>;

/// Hashes `bytes` with `alloy_primitives::keccak256` and hands out the 32
/// digest bytes.  Claimed: the result is `keccak256_digest` of the input.
#[verifier::external_body]
fn keccak256(bytes: &[u8]) -> (h: [u8; 32])
    ensures
        h@ == keccak256_digest(bytes@),
{
    alloy_primitives::keccak256(bytes).0
}

/// The on-chain hash of a transaction: Keccak-256 of its wire bytes.
pub trait HashWire {
    /// Keccak-256 of the wire bytes.
    fn hash_wire(&self) -> (h: [u8; 32]);
}

impl HashWire for TransactionSigned {
    fn hash_wire(&self) -> (h: [u8; 32])
        ensures
            h@ == keccak256_digest(eip2718_encoding(*self)),
    {
        let w = encode_wire(self);
        keccak256(w.as_slice())
    }
}

/// Wire bytes split right where the RLP list starts: after the type byte of
/// a typed transaction, at the start for a legacy one, whose first byte is
/// an RLP list prefix; a typed transaction's first byte is its type byte.
pub proof fn lemma_split_undoes_frame(ty: TxType, w: Seq<u8>)
    requires
        eip2718_shape(ty, w),
    ensures
        wire_split(w) == Ok::<int, WireFault>(type_prefix(ty).len() as int),
        ty == TxType::Legacy ==> w[0] >= 0xc0,
        ty != TxType::Legacy ==> w[0] == spec_type_byte(ty) && 0x01 <= w[0] <= 0x04 && w[1] >= 0xc0,
{
    let body = w.skip(type_prefix(ty).len() as int);
    if ty == TxType::Legacy {
        assert(w == body);
    } else {
        assert(w[0] == spec_type_byte(ty));
        assert(w[1] == body[0]);
    }
}

/// Wire bytes survive a round trip: `decode_wire` accepts the wire bytes of
/// any transaction and gives back a transaction of the same kind with the
/// same wire bytes, hence the same wire hash.
pub proof fn lemma_wire_roundtrip(ty: TxType, w: Seq<u8>)
    requires
        is_wire_encoding(ty, w),
    ensures
        wire_split(w) is Ok,
        eip2718_decodes(w),
        eip2718_encoding(eip2718_decoded(w)) == w,
        tx_kind(eip2718_decoded(w)) == ty,
        keccak256_digest(eip2718_encoding(eip2718_decoded(w))) == keccak256_digest(w),
{
    lemma_split_undoes_frame(ty, w);
}

} // verus!
