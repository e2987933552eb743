use eth_rpc_client::cli::{should_continue, MenuOption};
use eth_rpc_client::request::{
    block_selector, interpret_block_number, Body, Method, RpcCalls,
};

#[test]
fn method_names_match_the_catalog() {
    assert_eq!(Method::Accounts.value(), "eth_accounts");
    assert_eq!(Method::GasPrice.value(), "eth_gasPrice");
    assert_eq!(Method::BlockNumber.value(), "eth_blockNumber");
    assert_eq!(Method::GetBalance.value(), "eth_getBalance");
    assert_eq!(Method::TxCount.value(), "eth_getTransactionCount");
    assert_eq!(Method::BlockTxCountByHash.value(), "eth_getBlockTransactionCountByHash");
    assert_eq!(Method::BlockTxCountByNumber.value(), "eth_getBlockTransactionCountByNumber");
    assert_eq!(Method::SendTx.value(), "eth_sendTransaction");
    assert_eq!(Method::GetBlockByHash.value(), "eth_getBlockByHash");
    assert_eq!(Method::GetBlockByNumber.value(), "eth_getBlockByNumber");
    assert_eq!(Method::GetTxByHash.value(), "eth_getTransactionByHash");
    assert_eq!(Method::GetTxReceipt.value(), "eth_getTransactionReceipt");
}

#[test]
fn body_new_fills_the_envelope() {
    let body = Body::new(Method::GasPrice, vec![]);
    assert_eq!(body.jsonrpc, "2.0");
    assert_eq!(body.method, "eth_gasPrice");
    assert!(body.params.is_empty());
    assert_eq!(body.id, 1);
}

#[test]
fn zero_block_number_means_latest() {
    assert_eq!(interpret_block_number(0), None);
    assert_eq!(interpret_block_number(12710481), Some(12710481));
    assert_eq!(block_selector(None), "latest");
    assert_eq!(block_selector(Some(12710481)), "12710481");
}

#[test]
fn balance_request_for_no_block_uses_latest() {
    let addr = "0xf1a9e8f520b3427b6326356731a5cb4389337516";
    let body = RpcCalls::get_balance_request(addr, None);
    assert_eq!(body.method, "eth_getBalance");
    assert_eq!(body.params, vec![addr.to_owned(), "latest".to_owned()]);
    assert_eq!(body.id, 1);
}

#[test]
fn balance_request_for_a_block_sends_its_decimal_number() {
    let addr = "0x4d684f86ed2084484c6547975533151128b0c8bd";
    let body = RpcCalls::get_balance_request(addr, Some(12710481));
    assert_eq!(body.params, vec![addr.to_owned(), "12710481".to_owned()]);
}

#[test]
fn tx_count_request_shapes() {
    let addr = "0xf1a9e8f520b3427b6326356731a5cb4389337516";
    let body = RpcCalls::get_tx_count_request(addr, None);
    assert_eq!(body.method, "eth_getTransactionCount");
    assert_eq!(body.params, vec![addr.to_owned(), "latest".to_owned()]);
}

#[test]
fn block_tx_count_prefers_the_hash() {
    let body = RpcCalls::block_tx_count_request(Some("0xabc"), Some(5));
    assert_eq!(body.method, "eth_getBlockTransactionCountByHash");
    assert_eq!(body.params, vec!["0xabc".to_owned()]);
    let by_number = RpcCalls::block_tx_count_request(None, Some(5));
    assert_eq!(by_number.method, "eth_getBlockTransactionCountByNumber");
    assert_eq!(by_number.params, vec!["5".to_owned()]);
    let latest = RpcCalls::block_tx_count_request(None, None);
    assert_eq!(latest.params, vec!["latest".to_owned()]);
}

#[test]
fn block_request_always_asks_for_full_transactions() {
    let by_hash = RpcCalls::get_block_request(Some("0xabc"), None);
    assert_eq!(by_hash.method, "eth_getBlockByHash");
    assert_eq!(by_hash.params.0, "0xabc");
    assert!(by_hash.params.1);
    assert_eq!(by_hash.jsonrpc, "2.0");
    assert_eq!(by_hash.id, 1);
    let by_number = RpcCalls::get_block_request(None, Some(12710481));
    assert_eq!(by_number.method, "eth_getBlockByNumber");
    assert_eq!(by_number.params.0, "12710481");
    assert!(by_number.params.1);
    let latest = RpcCalls::get_block_request(None, None);
    assert_eq!(latest.params.0, "latest");
}

#[test]
fn tx_request_carries_the_hash() {
    let body = RpcCalls::get_tx_request("0xdead");
    assert_eq!(body.method, "eth_getTransactionByHash");
    assert_eq!(body.params, vec!["0xdead".to_owned()]);
}

#[test]
fn menu_labels_and_selection() {
    assert_eq!(MenuOption::GetAccounts.value(), "1) Get node accounts");
    assert_eq!(MenuOption::GetTx.value(), "8) Get transaction");
    assert_eq!(MenuOption::Invalid.value(), "Invalid input");
    assert_eq!(MenuOption::get_option_by_idx(1), MenuOption::GetAccounts);
    assert_eq!(MenuOption::get_option_by_idx(4), MenuOption::GetBalance);
    assert_eq!(MenuOption::get_option_by_idx(8), MenuOption::GetTx);
    assert_eq!(MenuOption::get_option_by_idx(0), MenuOption::Invalid);
    assert_eq!(MenuOption::get_option_by_idx(9), MenuOption::Invalid);
}

#[test]
fn continuation_stops_only_on_n() {
    assert!(!should_continue("N"));
    assert!(!should_continue("n"));
    assert!(should_continue("Y"));
    assert!(should_continue("y"));
    assert!(should_continue(""));
    assert!(should_continue("no"));
}
