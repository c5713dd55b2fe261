//! The data types of the Zeta perpetuals exchange's accounts (their fields, not
//! their packed on-chain memory layout) and its margin and profit-and-loss
//! arithmetic, with their behaviour stated and proved.

pub mod account;
pub mod constants;
pub mod errors;
pub mod laws;

pub use crate::account::{
    asset_from_byte, asset_multiplier, asset_to_string, asset_to_u8, AnchorDecimal, Asset,
    CrossMarginAccount, CrossMarginAccountInfo, CrossMarginAccountManager, CrossOpenOrdersMap,
    HaltStateV2, Kind, MarginAccountType, MarginParameters, OpenOrdersMap, OrderCompleteType,
    OrderState, OrderType, PerpParameters, PerpSyncQueue, Position, Pricing, PricingParameters,
    Product, ProductLedger, Side, State, Strike,
};
pub use crate::constants::{
    ACCOUNT_NAME_MAX_LEN, ASK_ORDERS_INDEX, BID_ORDERS_INDEX, MAX_CROSS_MARGIN_ACCOUNTS,
    MAX_PERP_MARKETS, POSITION_PRECISION_DENOMINATOR,
};
pub use crate::errors::ZetaError;
