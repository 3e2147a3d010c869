use alloy_consensus::{SignableTransaction, Signed, TxEip1559, TxLegacy};
use alloy_primitives::{keccak256, Address, Bytes, Signature, TxKind, U256};
use alloy_eips::eip2718::Encodable2718;
use alloy_rlp::Encodable;
use zeth_core::wire::{decode_wire, encode_wire, split_wire, HashWire, TransactionSigned, WireError, WireFault};

fn create_legacy_transaction() -> TransactionSigned {
    let tx = TxLegacy {
        chain_id: Some(1),
        nonce: 42u64,
        gas_price: 20_000_000_000,
        gas_limit: 21000,
        to: TxKind::Call(Address::ZERO),
        value: U256::from(1000),
        input: Bytes::new(),
    };
    let signature = Signature::new(U256::from(1), U256::from(2), false);
    let hash = tx.signature_hash();
    let signed_tx = Signed::new_unchecked(tx, signature, hash);
    TransactionSigned::Legacy(signed_tx)
}

/// The same legacy transaction, signed so that its recorded hash is its real
/// hash (`Signed::new_unchecked` above records the signature hash instead).
fn create_hashed_legacy_transaction() -> TransactionSigned {
    let tx = TxLegacy {
        chain_id: Some(1),
        nonce: 42u64,
        gas_price: 20_000_000_000,
        gas_limit: 21000,
        to: TxKind::Call(Address::ZERO),
        value: U256::from(1000),
        input: Bytes::new(),
    };
    let signature = Signature::new(U256::from(1), U256::from(2), false);
    TransactionSigned::Legacy(tx.into_signed(signature))
}

fn create_eip1559_transaction() -> TransactionSigned {
    let tx = TxEip1559 {
        chain_id: 1,
        nonce: 7,
        gas_limit: 21000,
        max_fee_per_gas: 30_000_000_000,
        max_priority_fee_per_gas: 1_000_000_000,
        to: TxKind::Call(Address::ZERO),
        value: U256::from(5),
        ..Default::default()
    };
    let signature = Signature::new(U256::from(3), U256::from(4), true);
    TransactionSigned::Eip1559(tx.into_signed(signature))
}

#[test]
fn test_legacy_transaction_hash_preservation() {
    let tx = create_legacy_transaction();
    let original_wire_hash = tx.hash_wire();
    let wire_bytes = encode_wire(&tx);
    let recovered_tx = decode_wire(&wire_bytes).expect("Failed to decode wire format");
    let recovered_wire_hash = recovered_tx.hash_wire();
    assert_eq!(
        original_wire_hash, recovered_wire_hash,
        "Legacy transaction wire hash changed! Original: {:?}, Recovered: {:?}",
        original_wire_hash, recovered_wire_hash
    );
}

#[test]
fn test_wire_format_legacy_no_type_byte() {
    let tx = create_legacy_transaction();
    let wire_bytes = encode_wire(&tx);
    let mut standard_bytes = Vec::new();
    tx.encode(&mut standard_bytes);
    assert_eq!(wire_bytes, standard_bytes, "Legacy transaction wire format should match standard encoding");
    let recovered = decode_wire(&wire_bytes).expect("Failed to decode");
    assert_eq!(tx.hash_wire(), recovered.hash_wire(), "Wire hash should be preserved");
}

#[test]
fn test_typed_transaction_gets_type_byte() {
    let tx = create_legacy_transaction();
    let wire_bytes = encode_wire(&tx);
    let _recovered = decode_wire(&wire_bytes).expect("Failed to decode");
}

#[test]
fn test_decode_wire_handles_empty_bytes() {
    let result = decode_wire(&[]);
    assert!(result.is_err(), "Empty bytes should result in error");
}

#[test]
fn test_decode_wire_handles_too_short_typed() {
    let result = decode_wire(&[0x02]);
    assert!(result.is_err(), "Type byte without data should result in error");
}

#[test]
fn test_hash_wire_matches_keccak256_of_wire_bytes() {
    let tx = create_legacy_transaction();
    let hash_via_helper = tx.hash_wire();
    let wire_bytes = encode_wire(&tx);
    let hash_via_keccak256 = keccak256(&wire_bytes);
    let hash_slow = tx.hash().clone();
    println!("hash_wire():        {:?}", hash_via_helper);
    println!("keccak256(wire):    {:?}", hash_via_keccak256);
    println!("hash_slow():        {:?}", hash_slow);
    assert_eq!(
        hash_via_helper, hash_via_keccak256.0,
        "hash_wire() must produce same result as keccak256(encode_wire())"
    );
    if hash_via_helper != hash_slow.0 {
        println!("Note: hash_wire() differs from hash_slow() - this indicates EIP-155 or other issues");
    } else {
        println!("Note: hash_wire() matches hash_slow() for this legacy transaction");
    }
}

#[test]
fn test_wire_format_is_broadcast_ready() {
    let tx = create_legacy_transaction();
    let wire_bytes = encode_wire(&tx);
    assert!(wire_bytes[0] >= 0xc0, "Legacy transaction should start with RLP list prefix");
    let recovered = decode_wire(&wire_bytes).expect("Should decode successfully");
    assert_eq!(tx.hash_wire(), recovered.hash_wire(), "Wire hash should survive round-trip");
}

#[test]
fn test_wire_encoding_fix() {
    let tx = create_legacy_transaction();
    let original_wire_hash = tx.hash_wire();
    let raw = encode_wire(&tx);
    let back = decode_wire(&raw).expect("Wire format decode failed");
    let recovered_wire_hash = back.hash_wire();
    println!("Original hash_slow(): {:?}", tx.hash());
    println!("Recovered hash_slow(): {:?}", back.hash());
    assert_eq!(
        original_wire_hash, recovered_wire_hash,
        "Wire transaction hash changed! Original: {:?}, Recovered: {:?}",
        original_wire_hash, recovered_wire_hash
    );
}

#[test]
fn test_different_transaction_types() {
    let legacy_tx = create_hashed_legacy_transaction();
    let legacy_hash = legacy_tx.hash().clone();
    let legacy_raw = encode_wire(&legacy_tx);
    let legacy_back = decode_wire(&legacy_raw).unwrap();
    assert_eq!(legacy_hash, *legacy_back.hash(), "Legacy transaction hash mismatch");
}

#[test]
fn typed_transaction_wire_is_its_eip2718_encoding() {
    let tx = create_eip1559_transaction();
    let wire = encode_wire(&tx);
    assert_eq!(wire, tx.encoded_2718());
    assert_eq!(wire[0], 0x02);
    // the type byte is followed by the RLP list of the signed fields
    assert!(wire[1] >= 0xc0);
    let back = decode_wire(&wire).expect("typed wire bytes decode");
    assert_eq!(encode_wire(&back), wire);
    assert_eq!(back.hash_wire(), tx.hash_wire());
    assert_eq!(tx.hash_wire(), keccak256(&wire).0);
    // the wire hash is the on-chain transaction hash
    assert_eq!(tx.hash_wire(), tx.tx_hash().0);
}

#[test]
fn legacy_wire_hash_is_the_transaction_hash() {
    let tx = create_hashed_legacy_transaction();
    assert_eq!(tx.hash_wire(), tx.tx_hash().0);
    let wire = encode_wire(&tx);
    assert_eq!(wire.len(), 39);
    assert_eq!(wire[0], 0xe6);
}

#[test]
fn wire_hash_differs_from_wire_bytes() {
    let tx = create_legacy_transaction();
    let wire = encode_wire(&tx);
    assert_ne!(tx.hash_wire().to_vec(), wire);
    assert_eq!(tx.hash_wire().len(), 32);
}

#[test]
fn split_wire_classifies_the_first_byte() {
    assert_eq!(split_wire(&[]), Err(WireFault::InputTooShort));
    assert_eq!(split_wire(&[0xc0]), Ok(0));
    assert_eq!(split_wire(&[0xff, 0x01]), Ok(0));
    assert_eq!(split_wire(&[0x02]), Err(WireFault::InputTooShort));
    assert_eq!(split_wire(&[0x00, 0x80]), Ok(1));
    assert_eq!(split_wire(&[0x04, 0x80]), Ok(1));
    assert_eq!(split_wire(&[0x05, 0x80]), Err(WireFault::InvalidFormat));
    assert_eq!(split_wire(&[0xbf, 0x80]), Err(WireFault::InvalidFormat));
}

#[test]
fn decode_wire_reports_each_error() {
    assert_eq!(decode_wire(&[]).unwrap_err(), WireError::InputTooShort);
    assert_eq!(decode_wire(&[0x03]).unwrap_err(), WireError::InputTooShort);
    assert_eq!(decode_wire(&[0x7f, 0x00]).unwrap_err(), WireError::InvalidFormat);
    assert!(matches!(decode_wire(&[0xc0]).unwrap_err(), WireError::Rlp(_)));
    assert!(matches!(decode_wire(&[0x02, 0x80]).unwrap_err(), WireError::Rlp(_)));
}

#[test]
fn decode_wire_reads_the_kind_its_first_byte_names() {
    let legacy = create_hashed_legacy_transaction();
    let legacy_wire = encode_wire(&legacy);
    assert!(decode_wire(&legacy_wire).unwrap().is_legacy());
    let typed = create_eip1559_transaction();
    let typed_wire = encode_wire(&typed);
    assert!(decode_wire(&typed_wire).unwrap().is_eip1559());
    // a 0x00 type byte in front of a legacy list is refused
    let mut zero = vec![0x00];
    zero.extend_from_slice(&legacy_wire);
    assert!(matches!(decode_wire(&zero).unwrap_err(), WireError::Rlp(_)));
    // a type byte that is not the type of the transaction behind it is refused
    let mut mismatched = typed_wire.clone();
    mismatched[0] = 0x01;
    assert!(matches!(decode_wire(&mismatched).unwrap_err(), WireError::Rlp(_)));
}
