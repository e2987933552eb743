//! The numbered menu of operations and the continuation rule.
//!
//! The interactive driver around the library reads the input lines; the
//! mapping from a numeric selection to an operation, the menu labels, and
//! the decision whether the session continues are decided here.

use vstd::prelude::*;

verus! {

/// One selectable operation of the menu; `Invalid` is the no-op branch for
/// an out-of-range selection.
#[derive(Clone, Copy, PartialEq, Eq, Structural, Debug)]
pub enum MenuOption {
    GetAccounts,
    GetGasPrice,
    GetBlockNumber,
    GetBalance,
    GetTxCount,
    GetBlockTxCount,
    GetBlock,
    GetTx,
    Invalid,
}

/// The menu label of each operation.
pub open spec fn menu_label(o: MenuOption) -> Seq<char> {
    match o {
        MenuOption::GetAccounts => "1) Get node accounts"@,
        MenuOption::GetGasPrice => "2) Get gase price"@,
        MenuOption::GetBlockNumber => "3) Get Block Number"@,
        MenuOption::GetBalance => "4) Get balance"@,
        MenuOption::GetTxCount => "5) Get tx count for an address"@,
        MenuOption::GetBlockTxCount => "6) Get block tx count"@,
        MenuOption::GetBlock => "7) Get block info"@,
        MenuOption::GetTx => "8) Get transaction"@,
        MenuOption::Invalid => "Invalid input"@,
    }
}

/// The operation selected by a numeric menu index; everything outside 1
/// through 8 is the invalid no-op branch.
pub open spec fn option_by_idx(idx: u32) -> MenuOption {
    if idx == 1 {
        MenuOption::GetAccounts
    } else if idx == 2 {
        MenuOption::GetGasPrice
    } else if idx == 3 {
        MenuOption::GetBlockNumber
    } else if idx == 4 {
        MenuOption::GetBalance
    } else if idx == 5 {
        MenuOption::GetTxCount
    } else if idx == 6 {
        MenuOption::GetBlockTxCount
    } else if idx == 7 {
        MenuOption::GetBlock
    } else if idx == 8 {
        MenuOption::GetTx
    } else {
        MenuOption::Invalid
    }
}

impl MenuOption {
    /// The menu label of the operation.
    pub fn value(&self) -> (r: &'static str)
        ensures
            r@ == menu_label(*self),
    {
        match self {
            MenuOption::GetAccounts => "1) Get node accounts",
            MenuOption::GetGasPrice => "2) Get gase price",
            MenuOption::GetBlockNumber => "3) Get Block Number",
            MenuOption::GetBalance => "4) Get balance",
            MenuOption::GetTxCount => "5) Get tx count for an address",
            MenuOption::GetBlockTxCount => "6) Get block tx count",
            MenuOption::GetBlock => "7) Get block info",
            MenuOption::GetTx => "8) Get transaction",
            MenuOption::Invalid => "Invalid input",
        }
    }

    /// Maps a numeric selection to its operation.
    pub fn get_option_by_idx(idx: u32) -> (r: MenuOption)
        ensures
            r == option_by_idx(idx),
    {
        match idx {
            1 => MenuOption::GetAccounts,
            2 => MenuOption::GetGasPrice,
            3 => MenuOption::GetBlockNumber,
            4 => MenuOption::GetBalance,
            5 => MenuOption::GetTxCount,
            6 => MenuOption::GetBlockTxCount,
            7 => MenuOption::GetBlock,
            8 => MenuOption::GetTx,
            _ => MenuOption::Invalid,
        }
    }
}

/// The session goes on unless the continuation prompt was answered with
/// `N` or `n`; any other answer continues.
pub fn should_continue(answer: &str) -> (r: bool)
    ensures
        r == !(answer@ == "N"@ || answer@ == "n"@),
{
    proof {
        reveal_strlit("N");
        reveal_strlit("n");
    }
    let n = answer.unicode_len();
    if n != 1 {
        return true;
    }
    let c = answer.get_char(0);
    if c == 'N' || c == 'n' {
        proof {
            if c == 'N' {
                assert(answer@ =~= "N"@);
            } else {
                assert(answer@ =~= "n"@);
            }
        }
        false
    } else {
        true
    }
}

} // verus!
