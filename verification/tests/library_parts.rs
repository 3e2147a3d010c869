use alloy_consensus::{SignableTransaction, TxLegacy};
use alloy_primitives::{Address, Bytes, Signature, TxKind, U256};
use zeth_core::blob_scan::BlockScan;
use zeth_core::hex::{parse_hex_quantity, parse_hex_u64};
use zeth_core::journal::{journal_bytes, tip_block_number, u64_to_be_bytes, Witness};
use alloy_eips::eip4895::{Withdrawal, Withdrawals};
use alloy_rlp::Encodable;
use zeth_core::pot_compat::{block_withdrawals, decode_transactions_wire, encode_transactions_wire, BlockPot, HeaderPot};
use zeth_core::rpc::{hex_quantity, interpret_response, RpcError, RpcFailure};
use zeth_core::wire::{encode_wire, HashWire, TransactionSigned, WireError};

fn legacy(nonce: u64) -> TransactionSigned {
    let tx = TxLegacy {
        chain_id: Some(1),
        nonce,
        gas_price: 20_000_000_000,
        gas_limit: 21000,
        to: TxKind::Call(Address::ZERO),
        value: U256::from(1000),
        input: Bytes::new(),
    };
    let signature = Signature::new(U256::from(1), U256::from(2), false);
    TransactionSigned::Legacy(tx.into_signed(signature))
}

fn header() -> HeaderPot {
    HeaderPot {
        parent_hash: [1u8; 32],
        ommers_hash: [2u8; 32],
        beneficiary: [3u8; 20],
        state_root: [4u8; 32],
        transactions_root: [5u8; 32],
        receipts_root: [6u8; 32],
        logs_bloom: [0u8; 256],
        mix_hash: [7u8; 32],
        nonce: [0, 0, 0, 0, 0, 0, 0, 1],
        difficulty: [0u8; 32],
        number: 12345,
        gas_limit: 8000000,
        gas_used: 7500000,
        timestamp: 1640995200,
        extra_data: b"test".to_vec(),
        base_fee_per_gas: Some(20_000_000_000),
        withdrawals_root: None,
        blob_gas_used: None,
        excess_blob_gas: None,
        parent_beacon_block_root: None,
        requests_hash: None,
    }
}

#[test]
fn block_pot_keeps_transactions_and_their_wire_bytes() {
    let txs = vec![legacy(1), legacy(2)];
    let pot = BlockPot::from_parts(header(), txs.clone(), vec![header()], Some(Withdrawals::default()));
    assert_eq!(pot.transactions_wire.len(), 2);
    assert_eq!(pot.transactions_wire[0], encode_wire(&txs[0]));
    assert_eq!(pot.transactions_wire[1], encode_wire(&txs[1]));
    assert_eq!(pot.header, header());
    assert_eq!(pot.ommers, vec![header()]);
    assert_eq!(pot.withdrawals, Some(vec![0xc0]));
    let back = pot.block_transactions().expect("kept transactions");
    assert_eq!(back, txs);
}

#[test]
fn block_pot_rebuilds_transactions_from_wire_bytes() {
    let txs = vec![legacy(1), legacy(2), legacy(3)];
    let mut pot = BlockPot::from_parts(header(), txs.clone(), vec![], None);
    pot.transactions = vec![];
    let back = pot.block_transactions().expect("wire bytes decode");
    assert_eq!(back.len(), 3);
    for (a, b) in back.iter().zip(txs.iter()) {
        assert_eq!(a.hash_wire(), b.hash_wire());
        assert_eq!(a.hash(), b.hash());
    }
}

#[test]
fn block_pot_without_any_transaction_stays_empty() {
    let pot = BlockPot::from_parts(header(), vec![], vec![], None);
    assert!(pot.transactions_wire.is_empty());
    assert_eq!(pot.block_transactions().unwrap().len(), 0);
}

#[test]
fn block_pot_reports_the_first_wire_entry_that_does_not_decode() {
    let good = encode_wire(&legacy(9));
    let wire = vec![good.clone(), vec![0x09], vec![]];
    match decode_transactions_wire(&wire) {
        Err((k, e)) => {
            assert_eq!(k, 1);
            assert_eq!(e, WireError::InvalidFormat);
        }
        Ok(_) => panic!("bad wire bytes decoded"),
    }
    let encoded = encode_transactions_wire(&vec![legacy(4)]);
    assert_eq!(encoded, vec![encode_wire(&legacy(4))]);
    assert_eq!(decode_transactions_wire(&encoded).unwrap().len(), 1);
}

#[test]
fn hex_numbers_parse_like_from_str_radix() {
    assert_eq!(parse_hex_u64(b"0"), Some(0));
    assert_eq!(parse_hex_u64(b"ff"), Some(255));
    assert_eq!(parse_hex_u64(b"FF"), Some(255));
    assert_eq!(parse_hex_u64(b"+1a"), Some(26));
    assert_eq!(parse_hex_u64(b"ffffffffffffffff"), Some(u64::MAX));
    assert_eq!(parse_hex_u64(b"10000000000000000"), None);
    assert_eq!(parse_hex_u64(b""), None);
    assert_eq!(parse_hex_u64(b"+"), None);
    assert_eq!(parse_hex_u64(b"-1"), None);
    assert_eq!(parse_hex_u64(b"1g"), None);
    assert_eq!(parse_hex_u64(b"0x10"), None);
    for s in ["0", "ff", "+1a", "ffffffffffffffff", "10000000000000000", "", "+", "-1", "1g", "0x10", "00012"] {
        assert_eq!(parse_hex_u64(s.as_bytes()), u64::from_str_radix(s, 16).ok(), "{}", s);
    }
    assert_eq!(parse_hex_quantity(b"0x1234"), Some(0x1234));
    assert_eq!(parse_hex_quantity(b"0x"), None);
}

#[test]
fn hex_quantity_is_written_like_format() {
    for n in [0u64, 1, 15, 16, 255, 0x1234abcd, u64::MAX] {
        let q = hex_quantity(n);
        assert_eq!(String::from_utf8(q.clone()).unwrap(), format!("0x{:x}", n));
        assert_eq!(parse_hex_quantity(&q), Some(n));
    }
}

#[test]
fn rpc_errors_win_over_results() {
    let e = RpcError { code: -32000, message: "boom".to_string() };
    assert_eq!(interpret_response(Some(5u64), Some(e.clone())), Err(RpcFailure::Remote(e)));
    assert_eq!(interpret_response(Some(5u64), None), Ok(5));
    assert_eq!(interpret_response::<u64>(None, None), Err(RpcFailure::MissingResult));
}

fn types(list: &[Option<&str>]) -> Vec<Option<Vec<u8>>> {
    list.iter().map(|t| t.map(|s| s.as_bytes().to_vec())).collect()
}

#[test]
fn blob_scan_tallies_blocks_newest_first() {
    let mut scan = BlockScan::new(100, 4);
    assert_eq!(scan.next_block(), Some(100));
    assert!(scan.progress_due());
    scan.record_block(&types(&[Some("0x2"), Some("0x3"), Some("0x3"), None]), &Some(b"0x20000".to_vec()));
    assert_eq!(scan.next_block(), Some(99));
    assert!(!scan.progress_due());
    scan.record_block(&types(&[Some("0x0"), Some("0x2")]), &None);
    assert_eq!(scan.next_block(), Some(98));
    scan.record_failure();
    assert_eq!(scan.next_block(), Some(97));
    scan.record_block(&types(&[Some("0x3")]), &Some(b"0xzz".to_vec()));
    assert_eq!(scan.next_block(), None);
    assert_eq!(scan.blob_gas_usage.get(&100), Some(&0x20000));
    assert_eq!(scan.blob_gas_usage.len(), 1);
    let r = scan.finish();
    assert_eq!(r.total_blocks, 4);
    assert_eq!(r.blocks_with_eip4844, 2);
    assert_eq!(r.blocks_without_eip4844, 1);
    assert_eq!(r.total_eip4844_transactions, 3);
    assert_eq!(r.block_range, (97, 100));
    assert_eq!(r.blocks_without_eip4844_list, vec![99]);
}

#[test]
fn blob_scan_counts_only_exact_blob_type() {
    assert_eq!(BlockScan::count_blob_transactions(&types(&[Some("0x3"), Some("0x03"), Some("3"), Some("0x3 "), None])), 1);
    assert_eq!(BlockScan::count_blob_transactions(&types(&[])), 0);
}

#[test]
fn journal_layout_is_big_endian_fields_in_order() {
    let hash = [0xabu8; 32];
    let mut diff = [0u8; 32];
    diff[31] = 0x11;
    let j = journal_bytes(1, &hash, &diff, 3);
    assert_eq!(j.len(), 80);
    assert_eq!(&j[0..8], &1u64.to_be_bytes());
    assert_eq!(&j[8..40], &hash);
    assert_eq!(&j[40..72], &diff);
    assert_eq!(&j[72..80], &3u64.to_be_bytes());
    for x in [0u64, 1, 0x0102030405060708, u64::MAX] {
        assert_eq!(u64_to_be_bytes(x), x.to_be_bytes());
    }
    assert_eq!(tip_block_number(100, 1), 100);
    assert_eq!(tip_block_number(100, 5), 104);
    assert_eq!(tip_block_number(0, 1), 0);
}

#[test]
fn witness_defaults_to_empty_inputs() {
    let w = Witness::default();
    assert!(w.encoded_rkyv_input.is_empty());
    assert_eq!(w.validated_tip_number, 0);
    assert_eq!(w.chain, 1);
    assert_eq!(w.validated_tip_hash, [0u8; 32]);
}

fn withdrawals() -> Withdrawals {
    Withdrawals::new(vec![Withdrawal { index: 1, validator_index: 2, address: Address::ZERO, amount: 3 }])
}

#[test]
fn block_pot_keeps_withdrawals_as_rlp_and_rebuilds_them() {
    let w = withdrawals();
    let mut rlp = Vec::new();
    w.encode(&mut rlp);
    let pot = BlockPot::from_parts(header(), vec![], vec![], Some(w.clone()));
    assert_eq!(pot.withdrawals, Some(rlp.clone()));
    assert_eq!(block_withdrawals(Some(rlp)), Some(w));
    assert!(BlockPot::from_parts(header(), vec![], vec![], None).withdrawals.is_none());
}

#[test]
fn block_withdrawals_fall_back_to_the_empty_list() {
    assert_eq!(block_withdrawals(None), None);
    assert_eq!(block_withdrawals(Some(vec![])), Some(Withdrawals::default()));
    assert_eq!(block_withdrawals(Some(vec![0x05])), Some(Withdrawals::default()));
    assert_eq!(block_withdrawals(Some(vec![0xc0])), Some(Withdrawals::default()));
}
