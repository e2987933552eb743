use eth_rpc_client::render::format_label_and_value;
use eth_rpc_client::types::{
    BlockHex, DecodeError, RPCResponse, ResultParser, TransactionHex,
};

fn tx_wire(value: &str) -> TransactionHex {
    TransactionHex {
        block_hash: String::from("0xabcdef"),
        block_number: String::from("0xc1ed51"),
        from: String::from("0xf1a9e8f520b3427b6326356731a5cb4389337516"),
        gas: String::from("0x5208"),
        gas_price: String::from("0x3b9aca00"),
        max_priority_fee_per_gas: None,
        max_fee_per_gas: Some(String::from("0x77359400")),
        hash: String::from("0x1234"),
        nonce: String::from("0x1"),
        to: Some(String::from("0x4d684f86ed2084484c6547975533151128b0c8bd")),
        tx_idx: String::from("0x0"),
        value: String::from(value),
    }
}

fn block_wire(txs: Vec<TransactionHex>) -> BlockHex {
    BlockHex {
        base_gas_fee: String::from("0x7"),
        difficulty: String::from("0x2"),
        gas_limit: String::from("0x1c9c380"),
        gas_used: String::from("0x5208"),
        hash: String::from("0xblockhash"),
        miner: String::from("0xminer"),
        mix_hash: String::from("0xmix"),
        nonce: String::from("0x0"),
        number: String::from("0xc1ed51"),
        parent_hash: String::from("0xparent"),
        size: String::from("0x220"),
        timestamp: String::from("0x60d0a8c0"),
        total_difficulty: String::from("0x9"),
        transactions: txs,
    }
}

#[test]
fn transaction_decodes_field_wise() {
    let t = tx_wire("0xde0b6b3a7640000").prase().unwrap();
    assert_eq!(t.block_number, 0xc1ed51);
    assert_eq!(t.gas, 0x5208);
    assert_eq!(t.gas_price, 1_000_000_000);
    assert_eq!(t.nonce, 1);
    assert_eq!(t.tx_idx, 0);
    assert_eq!(t.value, 1_000_000_000_000_000_000);
    assert_eq!(t.block_hash, "0xabcdef");
    assert_eq!(t.to.as_deref(), Some("0x4d684f86ed2084484c6547975533151128b0c8bd"));
    assert_eq!(t.max_fee_per_gas, Some(2_000_000_000));
}

#[test]
fn absent_optional_fields_stay_absent() {
    let mut w = tx_wire("0x1");
    w.max_fee_per_gas = None;
    w.to = None;
    let t = w.prase().unwrap();
    assert_eq!(t.max_priority_fee_per_gas, None);
    assert_eq!(t.max_fee_per_gas, None);
    assert_eq!(t.to, None);
}

#[test]
fn malformed_transaction_field_is_named() {
    let mut w = tx_wire("0x1");
    w.gas_price = String::from("0xnope");
    let e = w.prase().unwrap_err();
    let DecodeError::MalformedHex { field } = e;
    assert_eq!(field, "gasPrice");
}

#[test]
fn block_with_empty_transaction_list_decodes_to_zero_transactions() {
    let b = block_wire(Vec::new()).parse().unwrap();
    assert_eq!(b.transactions.len(), 0);
    assert_eq!(b.number, 0xc1ed51);
    assert_eq!(b.base_gas_fee, 7);
    assert_eq!(b.gas_used, 0x5208);
    assert_eq!(b.timestamp, 0x60d0a8c0);
    assert_eq!(b.hash, "0xblockhash");
    assert_eq!(b.miner, "0xminer");
}

#[test]
fn block_preserves_transaction_order() {
    let b = block_wire(vec![tx_wire("0x1"), tx_wire("0x2"), tx_wire("0x3")])
        .parse()
        .unwrap();
    let values: Vec<i128> = b.transactions.iter().map(|t| t.value).collect();
    assert_eq!(values, vec![1, 2, 3]);
}

#[test]
fn one_malformed_transaction_aborts_the_whole_block() {
    let good = tx_wire("0x1");
    let mut bad = tx_wire("0x2");
    bad.nonce = String::from("0x12xy");
    let e = block_wire(vec![good, bad]).parse().unwrap_err();
    let DecodeError::MalformedHex { field } = e;
    assert_eq!(field, "nonce");
}

#[test]
fn malformed_block_scalar_is_named() {
    let mut w = block_wire(Vec::new());
    w.total_difficulty = String::from("oops");
    let e = w.parse().unwrap_err();
    assert_eq!(e.field_name(), "totalDifficulty");
}

#[test]
fn response_decodes_and_converts_to_ether() {
    let r = RPCResponse { result: String::from("0xde0b6b3a7640000") };
    assert_eq!(r.result(), "0xde0b6b3a7640000");
    assert_eq!(r.to_decimals(), Ok(1_000_000_000_000_000_000));
    assert_eq!(r.from_wei(), Ok(1));
    let small = RPCResponse { result: String::from("0xde0b6b3a763ffff") };
    assert_eq!(small.from_wei(), Ok(0));
    let bad = RPCResponse { result: String::from("0xq") };
    assert!(bad.to_decimals().is_err());
    assert!(bad.from_wei().is_err());
}

#[test]
fn label_and_value_format() {
    assert_eq!(format_label_and_value("Wei", &String::from("21000")), "Wei: 21000\n");
}

#[test]
fn transaction_renders_labeled_lines() {
    let t = tx_wire("0xa").prase().unwrap();
    let text = t.render();
    let expected = "Hash: 0x1234\n\
                    From: 0xf1a9e8f520b3427b6326356731a5cb4389337516\n\
                    To: 0x4d684f86ed2084484c6547975533151128b0c8bd\n\
                    Value: 10\n\
                    Block Number: 12709201\n\
                    Block Hash: 0xabcdef\n\
                    Gas: 21000\n\
                    Gas Price: 1000000000\n\
                    Max priority fee per gas: ??\n\
                    Max fee per gas: 2000000000\n\
                    Nonce: 1\n\
                    Tx Idx: 0\n";
    assert_eq!(text, expected);
}

#[test]
fn block_renders_scalars_header_and_transactions() {
    let b = block_wire(vec![tx_wire("0xa")]).parse().unwrap();
    let text = b.render();
    assert!(text.starts_with("Hash: 0xblockhash\nBlock Number: 12709201\nTransactions Count: 1\nMiner: 0xminer\n"));
    assert!(text.contains("Base Gase Fee: 7\n"));
    assert!(text.contains("Total Difficulty: 9\nBlock Transaction: \n"));
    assert!(text.contains(">>>>>>>>>>>>>>>>>>>>>>>>><<<<<<<<<<<<<<<<<<<<<<<<<<<<<<\n"));
    assert!(text.ends_with("Tx Idx: 0\n\n"));
}
