use vstd::prelude::*;

verus! {

/// Number of perpetual market slots in every per-market array.
pub const MAX_PERP_MARKETS: usize = 25;

/// Length in bytes of a cross-margin account's name.
pub const ACCOUNT_NAME_MAX_LEN: usize = 10;

/// Number of cross-margin accounts a manager can hold.
pub const MAX_CROSS_MARGIN_ACCOUNTS: usize = 25;

/// Position sizes carry three decimals: one lot is this many native units.
pub const POSITION_PRECISION_DENOMINATOR: u128 = 1000;

/// Index of the bid side in `OrderState::opening_orders`.
pub const BID_ORDERS_INDEX: usize = 0;

/// Index of the ask side in `OrderState::opening_orders`.
pub const ASK_ORDERS_INDEX: usize = 1;

} // verus!
