//! Typed response model: wire (hex-string) forms and decoded (decimal)
//! forms of the three JSON-RPC result shapes, with the pure mapping between
//! them.
//!
//! Every numeric wire field is a `0x`-prefixed hex string and decodes to an
//! `i128`; identifier strings (hashes, addresses, the miner) pass through
//! verbatim.  A malformed hex field anywhere aborts the whole decode, so no
//! partially decoded value is ever observable.

use vstd::prelude::*;

use crate::decimal::{dec_digits, dec_int, i128_to_dec, usize_to_dec};
use crate::hex::{hex_to_decimals, quantity_ok, quantity_value, HexError};
use crate::render::{pairs_view, render, rendered_lines};
use crate::units::{wei_to_ether, WEI_PER_ETHER};

verus! {

/// A decode failure: some wire field held a string that is not a valid hex
/// quantity, named for debuggability.
#[derive(Debug)]
pub enum DecodeError {
    MalformedHex { field: String },
}

impl DecodeError {
    /// The name of the offending wire field.
    pub open spec fn spec_field(self) -> Seq<char> {
        match self {
            DecodeError::MalformedHex { field } => field@,
        }
    }

    /// The name of the offending wire field.
    pub fn field_name(&self) -> (r: &String)
        ensures
            r@ == self.spec_field(),
    {
        match self {
            DecodeError::MalformedHex { field } => field,
        }
    }
}

/// An optional wire field is well formed when absent or holding a valid
/// quantity.
pub open spec fn opt_quantity_ok(o: Option<String>) -> bool {
    match o {
        Some(s) => quantity_ok(s@),
        None => true,
    }
}

/// Absence is preserved exactly; a present field is decoded.
pub open spec fn opt_parsed(o: Option<String>, d: Option<i128>) -> bool {
    match o {
        Some(s) => d is Some && d->0 == quantity_value(s@),
        None => d is None,
    }
}

pub open spec fn opt_str_eq(o: Option<String>, d: Option<String>) -> bool {
    match o {
        Some(s) => d is Some && d->0@ == s@,
        None => d is None,
    }
}

/// Decodes one named hex quantity field, tagging a failure with the field
/// name.
fn decode_field(name: &str, s: &String) -> (r: Result<i128, DecodeError>)
    ensures
        match r {
            Ok(v) => quantity_ok(s@) && v == quantity_value(s@),
            Err(e) => !quantity_ok(s@) && e.spec_field() == name@,
        },
{
    match hex_to_decimals(s, true) {
        Ok(v) => Ok(v),
        Err(_) => Err(DecodeError::MalformedHex { field: String::from_str(name) }),
    }
}

/// Decodes one named optional hex quantity field; absence stays absence.
fn decode_opt_field(name: &str, s: &Option<String>) -> (r: Result<Option<i128>, DecodeError>)
    ensures
        match r {
            Ok(v) => opt_quantity_ok(*s) && opt_parsed(*s, v),
            Err(e) => !opt_quantity_ok(*s) && e.spec_field() == name@,
        },
{
    match s {
        Some(inner) => match decode_field(name, inner) {
            Ok(v) => Ok(Some(v)),
            Err(e) => Err(e),
        },
        None => Ok(None),
    }
}

/// Wire form of a transaction: hex-string scalars, with the post-fee-market
/// fee fields and the `to` address optional.
#[derive(Debug)]
pub struct TransactionHex {
    pub block_hash: String,
    pub block_number: String,
    pub from: String,
    pub gas: String,
    pub gas_price: String,
    pub max_priority_fee_per_gas: Option<String>,
    pub max_fee_per_gas: Option<String>,
    pub hash: String,
    pub nonce: String,
    pub to: Option<String>,
    pub tx_idx: String,
    pub value: String,
}

/// Decoded form of a transaction: quantities as decimal integers,
/// identifiers verbatim, optional fields still optional.
#[derive(Debug)]
pub struct Transaction {
    pub block_hash: String,
    pub block_number: i128,
    pub from: String,
    pub gas: i128,
    pub gas_price: i128,
    pub max_priority_fee_per_gas: Option<i128>,
    pub max_fee_per_gas: Option<i128>,
    pub hash: String,
    pub nonce: i128,
    pub to: Option<String>,
    pub tx_idx: i128,
    pub value: i128,
}

/// Every hex quantity field of the wire transaction is well formed.
pub open spec fn tx_wire_ok(w: TransactionHex) -> bool {
    &&& quantity_ok(w.block_number@)
    &&& quantity_ok(w.gas@)
    &&& quantity_ok(w.gas_price@)
    &&& opt_quantity_ok(w.max_priority_fee_per_gas)
    &&& opt_quantity_ok(w.max_fee_per_gas)
    &&& quantity_ok(w.nonce@)
    &&& quantity_ok(w.tx_idx@)
    &&& quantity_ok(w.value@)
}

/// The decoded transaction is the field-wise decoding of the wire form.
pub open spec fn tx_parsed_as(w: TransactionHex, t: Transaction) -> bool {
    &&& t.block_hash@ == w.block_hash@
    &&& t.block_number == quantity_value(w.block_number@)
    &&& t.from@ == w.from@
    &&& t.gas == quantity_value(w.gas@)
    &&& t.gas_price == quantity_value(w.gas_price@)
    &&& opt_parsed(w.max_priority_fee_per_gas, t.max_priority_fee_per_gas)
    &&& opt_parsed(w.max_fee_per_gas, t.max_fee_per_gas)
    &&& t.hash@ == w.hash@
    &&& t.nonce == quantity_value(w.nonce@)
    &&& opt_str_eq(w.to, t.to)
    &&& t.tx_idx == quantity_value(w.tx_idx@)
    &&& t.value == quantity_value(w.value@)
}

/// The wire name of the first malformed field of a transaction, in decode
/// order.
pub open spec fn tx_bad_field(w: TransactionHex) -> Seq<char> {
    if !quantity_ok(w.block_number@) {
        "blockNumber"@
    } else if !quantity_ok(w.gas@) {
        "gas"@
    } else if !quantity_ok(w.gas_price@) {
        "gasPrice"@
    } else if !opt_quantity_ok(w.max_priority_fee_per_gas) {
        "maxPriorityFeePerGas"@
    } else if !opt_quantity_ok(w.max_fee_per_gas) {
        "maxFeePerGas"@
    } else if !quantity_ok(w.nonce@) {
        "nonce"@
    } else if !quantity_ok(w.tx_idx@) {
        "transactionIndex"@
    } else {
        "value"@
    }
}

impl TransactionHex {
    /// Decodes the wire transaction.  Succeeds exactly when every hex field
    /// is well formed; a failure names the first malformed field and no
    /// partial transaction is exposed.
    pub fn prase(&self) -> (r: Result<Transaction, DecodeError>)
        ensures
            match r {
                Ok(t) => tx_wire_ok(*self) && tx_parsed_as(*self, t),
                Err(e) => !tx_wire_ok(*self) && e.spec_field() == tx_bad_field(*self),
            },
    {
        let block_number = match decode_field("blockNumber", &self.block_number) {
            Ok(v) => v,
            Err(e) => {
                return Err(e);
            },
        };
        let gas = match decode_field("gas", &self.gas) {
            Ok(v) => v,
            Err(e) => {
                return Err(e);
            },
        };
        let gas_price = match decode_field("gasPrice", &self.gas_price) {
            Ok(v) => v,
            Err(e) => {
                return Err(e);
            },
        };
        let max_priority_fee_per_gas = match decode_opt_field(
            "maxPriorityFeePerGas",
            &self.max_priority_fee_per_gas,
        ) {
            Ok(v) => v,
            Err(e) => {
                return Err(e);
            },
        };
        let max_fee_per_gas = match decode_opt_field("maxFeePerGas", &self.max_fee_per_gas) {
            Ok(v) => v,
            Err(e) => {
                return Err(e);
            },
        };
        let nonce = match decode_field("nonce", &self.nonce) {
            Ok(v) => v,
            Err(e) => {
                return Err(e);
            },
        };
        let tx_idx = match decode_field("transactionIndex", &self.tx_idx) {
            Ok(v) => v,
            Err(e) => {
                return Err(e);
            },
        };
        let value = match decode_field("value", &self.value) {
            Ok(v) => v,
            Err(e) => {
                return Err(e);
            },
        };
        let to = match &self.to {
            Some(a) => Some(a.clone()),
            None => None,
        };
        Ok(
            Transaction {
                block_hash: self.block_hash.clone(),
                block_number,
                from: self.from.clone(),
                gas,
                gas_price,
                max_priority_fee_per_gas,
                max_fee_per_gas,
                hash: self.hash.clone(),
                nonce,
                to,
                tx_idx,
                value,
            },
        )
    }
}

/// Wire form of a block: hex-string scalars plus the ordered transaction
/// list.
#[derive(Debug)]
pub struct BlockHex {
    pub base_gas_fee: String,
    pub difficulty: String,
    pub gas_limit: String,
    pub gas_used: String,
    pub hash: String,
    pub miner: String,
    pub mix_hash: String,
    pub nonce: String,
    pub number: String,
    pub parent_hash: String,
    pub size: String,
    pub timestamp: String,
    pub total_difficulty: String,
    pub transactions: Vec<TransactionHex>,
}

/// Decoded form of a block: quantities as decimal integers, identifiers
/// verbatim, and the decoded transactions in wire order.
#[derive(Debug)]
pub struct Block {
    pub base_gas_fee: i128,
    pub difficulty: i128,
    pub gas_limit: i128,
    pub gas_used: i128,
    pub hash: String,
    pub miner: String,
    pub mix_hash: String,
    pub nonce: i128,
    pub number: i128,
    pub parent_hash: String,
    pub size: i128,
    pub timestamp: i128,
    pub total_difficulty: i128,
    pub transactions: Vec<Transaction>,
}

/// Every scalar hex quantity field of the wire block is well formed.
pub open spec fn block_scalars_ok(w: BlockHex) -> bool {
    &&& quantity_ok(w.base_gas_fee@)
    &&& quantity_ok(w.difficulty@)
    &&& quantity_ok(w.gas_limit@)
    &&& quantity_ok(w.gas_used@)
    &&& quantity_ok(w.nonce@)
    &&& quantity_ok(w.number@)
    &&& quantity_ok(w.size@)
    &&& quantity_ok(w.timestamp@)
    &&& quantity_ok(w.total_difficulty@)
}

/// The whole wire block is well formed: its scalars and every transaction.
pub open spec fn block_wire_ok(w: BlockHex) -> bool {
    &&& block_scalars_ok(w)
    &&& forall|i: int|
        0 <= i < w.transactions@.len() ==> tx_wire_ok(#[trigger] w.transactions@[i])
}

/// The decoded block is the field-wise decoding of the wire form, with the
/// transaction order preserved.
pub open spec fn block_parsed_as(w: BlockHex, b: Block) -> bool {
    &&& b.base_gas_fee == quantity_value(w.base_gas_fee@)
    &&& b.difficulty == quantity_value(w.difficulty@)
    &&& b.gas_limit == quantity_value(w.gas_limit@)
    &&& b.gas_used == quantity_value(w.gas_used@)
    &&& b.hash@ == w.hash@
    &&& b.miner@ == w.miner@
    &&& b.mix_hash@ == w.mix_hash@
    &&& b.nonce == quantity_value(w.nonce@)
    &&& b.number == quantity_value(w.number@)
    &&& b.parent_hash@ == w.parent_hash@
    &&& b.size == quantity_value(w.size@)
    &&& b.timestamp == quantity_value(w.timestamp@)
    &&& b.total_difficulty == quantity_value(w.total_difficulty@)
    &&& b.transactions@.len() == w.transactions@.len()
    &&& forall|i: int|
        0 <= i < w.transactions@.len() ==> tx_parsed_as(
            #[trigger] w.transactions@[i],
            b.transactions@[i],
        )
}

/// The wire name of the first malformed scalar field of a block, in decode
/// order.
pub open spec fn block_bad_scalar(w: BlockHex) -> Seq<char> {
    if !quantity_ok(w.base_gas_fee@) {
        "baseFeePerGas"@
    } else if !quantity_ok(w.difficulty@) {
        "difficulty"@
    } else if !quantity_ok(w.gas_limit@) {
        "gasLimit"@
    } else if !quantity_ok(w.gas_used@) {
        "gasUsed"@
    } else if !quantity_ok(w.nonce@) {
        "nonce"@
    } else if !quantity_ok(w.number@) {
        "number"@
    } else if !quantity_ok(w.size@) {
        "size"@
    } else if !quantity_ok(w.timestamp@) {
        "timestamp"@
    } else {
        "totalDifficulty"@
    }
}

impl BlockHex {
    /// Decodes the wire block.  Succeeds exactly when every scalar field and
    /// every transaction is well formed; any malformed hex field anywhere in
    /// the block aborts the whole decode, so no partially decoded block is
    /// observable.  A failure names a malformed wire field.
    pub fn parse(&self) -> (r: Result<Block, DecodeError>)
        ensures
            match r {
                Ok(b) => block_wire_ok(*self) && block_parsed_as(*self, b),
                Err(e) => !block_wire_ok(*self) && (if !block_scalars_ok(*self) {
                    e.spec_field() == block_bad_scalar(*self)
                } else {
                    exists|i: int|
                        0 <= i < self.transactions@.len() && !tx_wire_ok(
                            #[trigger] self.transactions@[i],
                        ) && e.spec_field() == tx_bad_field(self.transactions@[i])
                }),
            },
    {
        let base_gas_fee = match decode_field("baseFeePerGas", &self.base_gas_fee) {
            Ok(v) => v,
            Err(e) => {
                return Err(e);
            },
        };
        let difficulty = match decode_field("difficulty", &self.difficulty) {
            Ok(v) => v,
            Err(e) => {
                return Err(e);
            },
        };
        let gas_limit = match decode_field("gasLimit", &self.gas_limit) {
            Ok(v) => v,
            Err(e) => {
                return Err(e);
            },
        };
        let gas_used = match decode_field("gasUsed", &self.gas_used) {
            Ok(v) => v,
            Err(e) => {
                return Err(e);
            },
        };
        let nonce = match decode_field("nonce", &self.nonce) {
            Ok(v) => v,
            Err(e) => {
                return Err(e);
            },
        };
        let number = match decode_field("number", &self.number) {
            Ok(v) => v,
            Err(e) => {
                return Err(e);
            },
        };
        let size = match decode_field("size", &self.size) {
            Ok(v) => v,
            Err(e) => {
                return Err(e);
            },
        };
        let timestamp = match decode_field("timestamp", &self.timestamp) {
            Ok(v) => v,
            Err(e) => {
                return Err(e);
            },
        };
        let total_difficulty = match decode_field("totalDifficulty", &self.total_difficulty) {
            Ok(v) => v,
            Err(e) => {
                return Err(e);
            },
        };
        let mut transactions: Vec<Transaction> = Vec::new();
        let n = self.transactions.len();
        let mut i: usize = 0;
        while i < n
            invariant
                0 <= i <= n,
                n == self.transactions@.len(),
                block_scalars_ok(*self),
                transactions@.len() == i,
                forall|j: int|
                    0 <= j < i ==> tx_wire_ok(#[trigger] self.transactions@[j]) && tx_parsed_as(
                        self.transactions@[j],
                        transactions@[j],
                    ),
            decreases n - i,
        {
            let tx = match self.transactions[i].prase() {
                Ok(t) => t,
                Err(e) => {
                    return Err(e);
                },
            };
            transactions.push(tx);
            i = i + 1;
        }
        Ok(
            Block {
                base_gas_fee,
                difficulty,
                gas_limit,
                gas_used,
                hash: self.hash.clone(),
                miner: self.miner.clone(),
                mix_hash: self.mix_hash.clone(),
                nonce,
                number,
                parent_hash: self.parent_hash.clone(),
                size,
                timestamp,
                total_difficulty,
                transactions,
            },
        )
    }
}

/// A scalar JSON-RPC response: a single hex quantity under `result`.
#[derive(Debug)]
pub struct RPCResponse {
    pub result: String,
}

/// A full JSON-RPC block response envelope, its `result` still in wire
/// form.
#[derive(Debug)]
pub struct BlockResponse {
    pub jsonrpc: String,
    pub id: u32,
    pub result: BlockHex,
}

/// Access to a response's hex-quantity payload, with decoding to decimal
/// and conversion to whole ether.
pub trait ResultParser {
    /// The payload the parser works on.
    spec fn result_view(&self) -> Seq<char>;

    /// The raw hex-string payload.
    fn result(&self) -> (r: String)
        ensures
            r@ == self.result_view(),
    ;

    /// The payload decoded as a decimal quantity.  Succeeds exactly when the
    /// payload is a well-formed hex quantity.
    fn to_decimals(&self) -> (r: Result<i128, HexError>)
        ensures
            match r {
                Ok(v) => quantity_ok(self.result_view()) && v == quantity_value(self.result_view()),
                Err(_) => !quantity_ok(self.result_view()),
            },
    {
        hex_to_decimals(&self.result(), true)
    }

    /// The payload decoded as wei and converted to whole ether, truncating
    /// toward zero.
    fn from_wei(&self) -> (r: Result<i128, HexError>)
        ensures
            match r {
                Ok(v) => quantity_ok(self.result_view()) && v == quantity_value(self.result_view())
                    / WEI_PER_ETHER as int,
                Err(_) => !quantity_ok(self.result_view()),
            },
    {
        match self.to_decimals() {
            Ok(v) => {
                proof {
                    crate::hex::lemma_hex_value_nonneg(
                        crate::hex::strip_0x(self.result_view()),
                    );
                }
                Ok(wei_to_ether(v))
            },
            Err(e) => Err(e),
        }
    }
}

impl ResultParser for RPCResponse {
    open spec fn result_view(&self) -> Seq<char> {
        self.result@
    }

    fn result(&self) -> (r: String) {
        self.result.clone()
    }
}

/// An optional identifier renders as itself, an absent one as `??`.
pub open spec fn opt_str_text(o: Option<String>) -> Seq<char> {
    match o {
        Some(s) => s@,
        None => "??"@,
    }
}

/// An optional quantity renders in decimal, an absent one as `??`.
pub open spec fn opt_dec_text(o: Option<i128>) -> Seq<char> {
    match o {
        Some(v) => dec_int(v as int),
        None => "??"@,
    }
}

/// The labeled values of a transaction report, in presentation order.
pub open spec fn tx_pairs(t: Transaction) -> Seq<(Seq<char>, Seq<char>)> {
    seq![
        ("Hash"@, t.hash@),
        ("From"@, t.from@),
        ("To"@, opt_str_text(t.to)),
        ("Value"@, dec_int(t.value as int)),
        ("Block Number"@, dec_int(t.block_number as int)),
        ("Block Hash"@, t.block_hash@),
        ("Gas"@, dec_int(t.gas as int)),
        ("Gas Price"@, dec_int(t.gas_price as int)),
        ("Max priority fee per gas"@, opt_dec_text(t.max_priority_fee_per_gas)),
        ("Max fee per gas"@, opt_dec_text(t.max_fee_per_gas)),
        ("Nonce"@, dec_int(t.nonce as int)),
        ("Tx Idx"@, dec_int(t.tx_idx as int)),
    ]
}

/// The full text of a transaction report.
pub open spec fn tx_text(t: Transaction) -> Seq<char> {
    rendered_lines(tx_pairs(t))
}

impl Transaction {
    /// Renders the transaction as labeled lines, one field per line, absent
    /// optional fields shown as `??`.
    pub fn render(&self) -> (r: String)
        ensures
            r@ == tx_text(*self),
    {
        let mut pairs: Vec<(String, String)> = Vec::new();
        pairs.push((String::from_str("Hash"), self.hash.clone()));
        pairs.push((String::from_str("From"), self.from.clone()));
        let to = match &self.to {
            Some(a) => a.clone(),
            None => String::from_str("??"),
        };
        pairs.push((String::from_str("To"), to));
        pairs.push((String::from_str("Value"), i128_to_dec(self.value)));
        pairs.push((String::from_str("Block Number"), i128_to_dec(self.block_number)));
        pairs.push((String::from_str("Block Hash"), self.block_hash.clone()));
        pairs.push((String::from_str("Gas"), i128_to_dec(self.gas)));
        pairs.push((String::from_str("Gas Price"), i128_to_dec(self.gas_price)));
        let max_priority = match self.max_priority_fee_per_gas {
            Some(v) => i128_to_dec(v),
            None => String::from_str("??"),
        };
        pairs.push((String::from_str("Max priority fee per gas"), max_priority));
        let max_fee = match self.max_fee_per_gas {
            Some(v) => i128_to_dec(v),
            None => String::from_str("??"),
        };
        pairs.push((String::from_str("Max fee per gas"), max_fee));
        pairs.push((String::from_str("Nonce"), i128_to_dec(self.nonce)));
        pairs.push((String::from_str("Tx Idx"), i128_to_dec(self.tx_idx)));
        proof {
            assert(pairs_view(pairs@) =~= tx_pairs(*self));
        }
        render(&pairs)
    }
}

/// The labeled values of a block report, in presentation order.
pub open spec fn block_pairs(b: Block) -> Seq<(Seq<char>, Seq<char>)> {
    seq![
        ("Hash"@, b.hash@),
        ("Block Number"@, dec_int(b.number as int)),
        ("Transactions Count"@, dec_digits(b.transactions@.len())),
        ("Miner"@, b.miner@),
        ("Base Gase Fee"@, dec_int(b.base_gas_fee as int)),
        ("Difficulty"@, dec_int(b.difficulty as int)),
        ("Gas Limit"@, dec_int(b.gas_limit as int)),
        ("Gas Used"@, dec_int(b.gas_used as int)),
        ("Mix Hash"@, b.mix_hash@),
        ("Nonce"@, dec_int(b.nonce as int)),
        ("Parent Hash"@, b.parent_hash@),
        ("Size"@, dec_int(b.size as int)),
        ("Timestamp"@, dec_int(b.timestamp as int)),
        ("Total Difficulty"@, dec_int(b.total_difficulty as int)),
    ]
}

/// The transaction section of a block report: each transaction under a
/// separator line, in block order.
pub open spec fn tx_section(txs: Seq<Transaction>) -> Seq<char>
    decreases txs.len(),
{
    if txs.len() == 0 {
        Seq::empty()
    } else {
        tx_section(txs.drop_last()) + ">>>>>>>>>>>>>>>>>>>>>>>>><<<<<<<<<<<<<<<<<<<<<<<<<<<<<<"@
            + seq!['\n'] + tx_text(txs.last()) + seq!['\n']
    }
}

/// The full text of a block report: the scalar lines, a transaction header,
/// then every transaction.
pub open spec fn block_text(b: Block) -> Seq<char> {
    rendered_lines(block_pairs(b)) + "Block Transaction: "@ + seq!['\n'] + tx_section(
        b.transactions@,
    )
}

impl Block {
    /// Renders the block as labeled lines followed by its transactions in
    /// order.
    pub fn render(&self) -> (r: String)
        ensures
            r@ == block_text(*self),
    {
        let mut pairs: Vec<(String, String)> = Vec::new();
        pairs.push((String::from_str("Hash"), self.hash.clone()));
        pairs.push((String::from_str("Block Number"), i128_to_dec(self.number)));
        pairs.push((String::from_str("Transactions Count"), usize_to_dec(self.transactions.len())));
        pairs.push((String::from_str("Miner"), self.miner.clone()));
        pairs.push((String::from_str("Base Gase Fee"), i128_to_dec(self.base_gas_fee)));
        pairs.push((String::from_str("Difficulty"), i128_to_dec(self.difficulty)));
        pairs.push((String::from_str("Gas Limit"), i128_to_dec(self.gas_limit)));
        pairs.push((String::from_str("Gas Used"), i128_to_dec(self.gas_used)));
        pairs.push((String::from_str("Mix Hash"), self.mix_hash.clone()));
        pairs.push((String::from_str("Nonce"), i128_to_dec(self.nonce)));
        pairs.push((String::from_str("Parent Hash"), self.parent_hash.clone()));
        pairs.push((String::from_str("Size"), i128_to_dec(self.size)));
        pairs.push((String::from_str("Timestamp"), i128_to_dec(self.timestamp)));
        pairs.push((String::from_str("Total Difficulty"), i128_to_dec(self.total_difficulty)));
        proof {
            assert(pairs_view(pairs@) =~= block_pairs(*self));
        }
        let mut out = render(&pairs);
        out.append("Block Transaction: ");
        out.append("\n");
        proof {
            reveal_strlit("\n");
            assert(out@ =~= rendered_lines(block_pairs(*self)) + "Block Transaction: "@ + seq![
                '\n',
            ] + tx_section(self.transactions@.take(0)));
        }
        let n = self.transactions.len();
        let mut i: usize = 0;
        while i < n
            invariant
                0 <= i <= n,
                n == self.transactions@.len(),
                out@ == rendered_lines(block_pairs(*self)) + "Block Transaction: "@ + seq!['\n']
                    + tx_section(self.transactions@.take(i as int)),
            decreases n - i,
        {
            out.append(">>>>>>>>>>>>>>>>>>>>>>>>><<<<<<<<<<<<<<<<<<<<<<<<<<<<<<");
            out.append("\n");
            let tx_line = self.transactions[i].render();
            out.append(tx_line.as_str());
            out.append("\n");
            proof {
                reveal_strlit("\n");
                let txs = self.transactions@;
                assert(txs.take(i as int + 1).drop_last() =~= txs.take(i as int));
                assert(txs.take(i as int + 1).last() == txs[i as int]);
                assert(out@ =~= rendered_lines(block_pairs(*self)) + "Block Transaction: "@ + seq![
                    '\n',
                ] + tx_section(txs.take(i as int + 1)));
            }
            i = i + 1;
        }
        proof {
            assert(self.transactions@.take(n as int) =~= self.transactions@);
        }
        out
    }
}

/// Absence of an optional fee field is preserved by decoding: the decoded
/// transaction's field is absent exactly when the wire field was absent,
/// never defaulted and never an error.
pub proof fn lemma_optional_fields_preserved(w: TransactionHex, t: Transaction)
    requires
        tx_parsed_as(w, t),
    ensures
        t.max_fee_per_gas is None <==> w.max_fee_per_gas is None,
        t.max_priority_fee_per_gas is None <==> w.max_priority_fee_per_gas is None,
        t.to is None <==> w.to is None,
{
}

/// A wire block with an empty transaction list decodes to a block with zero
/// transactions, never an absent list.
pub proof fn lemma_empty_transactions_preserved(w: BlockHex, b: Block)
    requires
        block_parsed_as(w, b),
        w.transactions@.len() == 0,
    ensures
        b.transactions@.len() == 0,
{
}

/// A malformed hex field in any single transaction makes the whole wire
/// block malformed, so its decode aborts and no partially decoded block is
/// observable.
pub proof fn lemma_bad_transaction_aborts_block(w: BlockHex, i: int)
    requires
        0 <= i < w.transactions@.len(),
        !tx_wire_ok(w.transactions@[i]),
    ensures
        !block_wire_ok(w),
{
}

} // verus!
