//! Unit conversion between wei and ether.

use vstd::prelude::*;

verus! {

/// Number of wei in one ether.
pub const WEI_PER_ETHER: u128 = 1_000_000_000_000_000_000;

/// Converts a non-negative wei amount to whole ether, truncating toward
/// zero; sub-ether remainders are discarded, never rounded up.
pub fn wei_to_ether(wei: i128) -> (r: i128)
    requires
        0 <= wei,
    ensures
        r == wei as int / WEI_PER_ETHER as int,
{
    ((wei as u128) / WEI_PER_ETHER) as i128
}

} // verus!
