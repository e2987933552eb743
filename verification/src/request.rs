//! Method catalog and JSON-RPC request envelopes.
//!
//! Each supported operation maps to a fixed method name and a parameter
//! shape: a flat list of strings, or — for the two full-block lookups — an
//! identifier paired with an "include full transactions" flag.  Block
//! numbers in requests are sent as plain decimal strings (while numbers in
//! responses are hex), and "no specific block" selects `latest`.

use vstd::prelude::*;

use crate::decimal::{dec_int, i128_to_dec};

verus! {

/// The closed catalog of supported JSON-RPC methods.
#[derive(Clone, Copy, PartialEq, Eq, Structural, Debug)]
pub enum Method {
    Accounts,
    GasPrice,
    BlockNumber,
    GetBalance,
    TxCount,
    BlockTxCountByHash,
    BlockTxCountByNumber,
    SendTx,
    GetBlockByHash,
    GetBlockByNumber,
    GetTxByHash,
    GetTxReceipt,
}

/// The wire name of each method.
pub open spec fn method_name(m: Method) -> Seq<char> {
    match m {
        Method::Accounts => "eth_accounts"@,
        Method::GasPrice => "eth_gasPrice"@,
        Method::BlockNumber => "eth_blockNumber"@,
        Method::GetBalance => "eth_getBalance"@,
        Method::TxCount => "eth_getTransactionCount"@,
        Method::BlockTxCountByHash => "eth_getBlockTransactionCountByHash"@,
        Method::BlockTxCountByNumber => "eth_getBlockTransactionCountByNumber"@,
        Method::SendTx => "eth_sendTransaction"@,
        Method::GetBlockByHash => "eth_getBlockByHash"@,
        Method::GetBlockByNumber => "eth_getBlockByNumber"@,
        Method::GetTxByHash => "eth_getTransactionByHash"@,
        Method::GetTxReceipt => "eth_getTransactionReceipt"@,
    }
}

impl Method {
    /// The wire name of the method.
    pub fn value(self) -> (r: &'static str)
        ensures
            r@ == method_name(self),
    {
        match self {
            Method::Accounts => "eth_accounts",
            Method::GasPrice => "eth_gasPrice",
            Method::BlockNumber => "eth_blockNumber",
            Method::GetBalance => "eth_getBalance",
            Method::TxCount => "eth_getTransactionCount",
            Method::BlockTxCountByHash => "eth_getBlockTransactionCountByHash",
            Method::BlockTxCountByNumber => "eth_getBlockTransactionCountByNumber",
            Method::SendTx => "eth_sendTransaction",
            Method::GetBlockByHash => "eth_getBlockByHash",
            Method::GetBlockByNumber => "eth_getBlockByNumber",
            Method::GetTxByHash => "eth_getTransactionByHash",
            Method::GetTxReceipt => "eth_getTransactionReceipt",
        }
    }
}

/// A JSON-RPC 2.0 request envelope with flat string-array parameters.
#[derive(Debug)]
pub struct Body {
    pub jsonrpc: String,
    pub method: String,
    pub params: Vec<String>,
    pub id: u32,
}

impl Body {
    /// Assembles an envelope for a method: protocol version literal `2.0`,
    /// the method's wire name, the given parameters, and request id `1`.
    pub fn new(method: Method, params: Vec<String>) -> (r: Body)
        ensures
            r.jsonrpc@ == "2.0"@,
            r.method@ == method_name(method),
            r.params == params,
            r.id == 1,
    {
        Body {
            jsonrpc: String::from_str("2.0"),
            method: String::from_str(method.value()),
            params,
            id: 1,
        }
    }
}

/// A JSON-RPC 2.0 request envelope for the block lookups, whose parameters
/// are an identifier and an "include full transactions" flag.
#[derive(Debug)]
pub struct BlockRequest {
    pub jsonrpc: String,
    pub method: String,
    pub params: (String, bool),
    pub id: u32,
}

/// The block selector sent on the wire: `latest` when no specific block was
/// requested, else the decimal rendering of the requested number.
pub open spec fn selector_text(block: Option<i32>) -> Seq<char> {
    match block {
        Some(n) => dec_int(n as int),
        None => "latest"@,
    }
}

/// A requested block number of zero means "no specific block"; zero is
/// never a valid block number here.
pub open spec fn interpreted_block(n: i32) -> Option<i32> {
    if n == 0 {
        None
    } else {
        Some(n)
    }
}

/// Maps a user-supplied block number to a block request: zero selects "no
/// specific block".
pub fn interpret_block_number(n: i32) -> (r: Option<i32>)
    ensures
        r == interpreted_block(n),
{
    if n == 0 {
        None
    } else {
        Some(n)
    }
}

/// Renders the block selector for a request.
pub fn block_selector(block: Option<i32>) -> (r: String)
    ensures
        r@ == selector_text(block),
{
    match block {
        Some(n) => i128_to_dec(n as i128),
        None => String::from_str("latest"),
    }
}

/// Requesting no specific block selects `latest`.
pub proof fn lemma_no_block_selects_latest()
    ensures
        selector_text(interpreted_block(0)) == "latest"@,
        forall|n: i32| n != 0 ==> selector_text(#[trigger] interpreted_block(n)) == dec_int(n as int),
{
}

/// Assembles the request envelope for each call shape of the catalog.
pub struct RpcCalls;

impl RpcCalls {
    /// Envelope for the zero-parameter accounts listing.
    pub fn accounts_request() -> (r: Body)
        ensures
            r.jsonrpc@ == "2.0"@,
            r.method@ == method_name(Method::Accounts),
            r.params@.len() == 0,
            r.id == 1,
    {
        Body::new(Method::Accounts, Vec::new())
    }

    /// Envelope for the zero-parameter gas price query.
    pub fn gas_price_request() -> (r: Body)
        ensures
            r.jsonrpc@ == "2.0"@,
            r.method@ == method_name(Method::GasPrice),
            r.params@.len() == 0,
            r.id == 1,
    {
        Body::new(Method::GasPrice, Vec::new())
    }

    /// Envelope for the zero-parameter latest-block-number query.
    pub fn block_number_request() -> (r: Body)
        ensures
            r.jsonrpc@ == "2.0"@,
            r.method@ == method_name(Method::BlockNumber),
            r.params@.len() == 0,
            r.id == 1,
    {
        Body::new(Method::BlockNumber, Vec::new())
    }

    /// Envelope for a balance query: the address and the block selector.
    pub fn get_balance_request(addr: &str, block: Option<i32>) -> (r: Body)
        ensures
            r.jsonrpc@ == "2.0"@,
            r.method@ == method_name(Method::GetBalance),
            r.params@.len() == 2,
            r.params@[0]@ == addr@,
            r.params@[1]@ == selector_text(block),
            r.id == 1,
    {
        let mut params: Vec<String> = Vec::new();
        params.push(String::from_str(addr));
        params.push(block_selector(block));
        Body::new(Method::GetBalance, params)
    }

    /// Envelope for an address's transaction count: the address and the
    /// block selector.
    pub fn get_tx_count_request(addr: &str, block: Option<i32>) -> (r: Body)
        ensures
            r.jsonrpc@ == "2.0"@,
            r.method@ == method_name(Method::TxCount),
            r.params@.len() == 2,
            r.params@[0]@ == addr@,
            r.params@[1]@ == selector_text(block),
            r.id == 1,
    {
        let mut params: Vec<String> = Vec::new();
        params.push(String::from_str(addr));
        params.push(block_selector(block));
        Body::new(Method::TxCount, params)
    }

    /// Envelope for a block's transaction count: by hash when one is given,
    /// else by number with the block selector.
    pub fn block_tx_count_request(block_hash: Option<&str>, block_number: Option<i32>) -> (r: Body)
        ensures
            r.jsonrpc@ == "2.0"@,
            r.id == 1,
            match block_hash {
                Some(h) => r.method@ == method_name(Method::BlockTxCountByHash) && r.params@.len()
                    == 1 && r.params@[0]@ == h@,
                None => r.method@ == method_name(Method::BlockTxCountByNumber) && r.params@.len()
                    == 1 && r.params@[0]@ == selector_text(block_number),
            },
    {
        match block_hash {
            Some(h) => {
                let mut params: Vec<String> = Vec::new();
                params.push(String::from_str(h));
                Body::new(Method::BlockTxCountByHash, params)
            },
            None => {
                let mut params: Vec<String> = Vec::new();
                params.push(block_selector(block_number));
                Body::new(Method::BlockTxCountByNumber, params)
            },
        }
    }

    /// Envelope for a full-block lookup: by hash when one is given, else by
    /// number with the block selector; full transaction objects are always
    /// requested.
    pub fn get_block_request(block_hash: Option<&str>, block_number: Option<i32>) -> (r:
        BlockRequest)
        ensures
            r.jsonrpc@ == "2.0"@,
            r.id == 1,
            r.params.1 == true,
            match block_hash {
                Some(h) => r.method@ == method_name(Method::GetBlockByHash) && r.params.0@ == h@,
                None => r.method@ == method_name(Method::GetBlockByNumber) && r.params.0@
                    == selector_text(block_number),
            },
    {
        match block_hash {
            Some(h) => BlockRequest {
                jsonrpc: String::from_str("2.0"),
                method: String::from_str(Method::GetBlockByHash.value()),
                params: (String::from_str(h), true),
                id: 1,
            },
            None => BlockRequest {
                jsonrpc: String::from_str("2.0"),
                method: String::from_str(Method::GetBlockByNumber.value()),
                params: (block_selector(block_number), true),
                id: 1,
            },
        }
    }

    /// Envelope for a transaction lookup by hash.
    pub fn get_tx_request(hash: &str) -> (r: Body)
        ensures
            r.jsonrpc@ == "2.0"@,
            r.method@ == method_name(Method::GetTxByHash),
            r.params@.len() == 1,
            r.params@[0]@ == hash@,
            r.id == 1,
    {
        let mut params: Vec<String> = Vec::new();
        params.push(String::from_str(hash));
        Body::new(Method::GetTxByHash, params)
    }
}

} // verus!
