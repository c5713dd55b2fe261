use vstd::prelude::*;

use solana_program::pubkey::Pubkey;

use crate::constants::{
    ACCOUNT_NAME_MAX_LEN, ASK_ORDERS_INDEX, BID_ORDERS_INDEX, MAX_CROSS_MARGIN_ACCOUNTS,
    MAX_PERP_MARKETS, POSITION_PRECISION_DENOMINATOR,
};
use crate::errors::ZetaError;

verus! {

/// A Solana account address, carried opaquely through the account layouts.
#[verifier::external_type_specification]
#[verifier::external_body]
pub struct ExPubkey(Pubkey);

/// Exchange-wide configuration account.
#[derive(Clone, Copy)]
pub struct State {
    pub admin: Pubkey,
    pub state_nonce: u8,
    pub serum_nonce: u8,
    pub mint_auth_nonce: u8,
    pub num_underlyings: u8,
    pub num_flex_underlyings: u8,
    pub _null: [u8; 7],
    pub strike_initialization_threshold_seconds: u32,
    pub pricing_frequency_seconds: u32,
    pub liquidator_liquidation_percentage: u32,
    pub insurance_vault_liquidation_percentage: u32,
    pub native_d1_trade_fee_percentage: u64,
    pub native_d1_underlying_fee_percentage: u64,
    pub native_whitelist_underlying_fee_percentage: u64,
    pub native_deposit_limit: u64,
    pub expiration_threshold_seconds: u32,
    pub position_movement_fee_bps: u8,
    pub margin_concession_percentage: u8,
    pub treasury_wallet_nonce: u8,
    pub native_option_trade_fee_percentage: u64,
    pub native_option_underlying_fee_percentage: u64,
    pub referrals_admin: Pubkey,
    pub referrals_rewards_wallet_nonce: u8,
    pub max_perp_delta_age: u16,
    pub secondary_admin: Pubkey,
    pub vault_nonce: u8,
    pub insurance_vault_nonce: u8,
    pub deprecated_total_insurance_vault_deposits: u64,
    pub native_withdraw_limit: u64,
    pub withdraw_limit_epoch_seconds: u32,
    pub native_open_interest_limit: u64,
    pub halt_states: [HaltStateV2; MAX_PERP_MARKETS],
    pub _padding: [u8; 338],
}

/// A listed product: its market, strike, cleanup flag and kind.
#[derive(Clone, Copy)]
pub struct Product {
    pub market: Pubkey,
    pub strike: Strike,
    pub dirty: bool,
    pub kind: Kind,
}

/// The strike of a product; meaningful only once `is_set` holds.
#[derive(Clone, Copy)]
pub struct Strike {
    is_set: bool,
    value: u64,
}

impl Strike {
    /// Whether a strike has been set.
    pub closed spec fn spec_is_set(&self) -> bool {
        self.is_set
    }

    /// The stored strike value.
    pub closed spec fn spec_value(&self) -> u64 {
        self.value
    }

    /// Builds a strike from its two stored fields.
    pub fn new(is_set: bool, value: u64) -> (s: Strike)
        ensures
            s.spec_is_set() == is_set,
            s.spec_value() == value,
    {
        Strike { is_set, value }
    }

    pub fn is_set(&self) -> (b: bool)
        ensures
            b == self.spec_is_set(),
    {
        self.is_set
    }

    /// The strike, or `ProductStrikeUninitialized` when none is set.
    pub fn get_strike(&self) -> (r: Result<u64, ZetaError>)
        ensures
            self.spec_is_set() ==> r == Ok::<u64, ZetaError>(self.spec_value()),
            !self.spec_is_set() ==> r == Err::<u64, ZetaError>(ZetaError::ProductStrikeUninitialized),
    {
        if !self.is_set() {
            return Err(ZetaError::ProductStrikeUninitialized);
        }
        Ok(self.value)
    }
}

/// Fixed-point pricing limits (decimals in Anchor's 16-byte layout).
#[derive(Clone, Copy, Default)]
pub struct PricingParameters {
    pub option_trade_normalizer: AnchorDecimal,
    pub future_trade_normalizer: AnchorDecimal,
    pub max_volatility_retreat: AnchorDecimal,
    pub max_interest_retreat: AnchorDecimal,
    pub max_delta: u64,
    pub min_delta: u64,
    pub min_volatility: u64,
    pub max_volatility: u64,
    pub min_interest_rate: i64,
    pub max_interest_rate: i64,
}

/// Margin requirements of a futures or perpetual market.
#[derive(Clone, Copy, Debug, Default)]
pub struct MarginParameters {
    pub future_margin_initial: u64,
    pub future_margin_maintenance: u64,
}

/// Funding-rate limits of a perpetual market.
#[derive(Clone, Copy, Debug, Default)]
pub struct PerpParameters {
    pub min_funding_rate_percent: i64,
    pub max_funding_rate_percent: i64,
    pub impact_cash_delta: u64,
}

/// One entry of a cross-margin account manager.
#[derive(Clone, Copy)]
pub struct CrossMarginAccountInfo {
    initialized: bool,
    name: [u8; ACCOUNT_NAME_MAX_LEN],
}

/// The list of cross-margin accounts an authority owns.
#[derive(Clone, Copy)]
pub struct CrossMarginAccountManager {
    pub nonce: u8,
    pub authority: Pubkey,
    pub accounts: [CrossMarginAccountInfo; MAX_CROSS_MARGIN_ACCOUNTS],
}

/// A trader's cross-margin account with one ledger per perpetual market.
#[derive(Clone, Copy)]
pub struct CrossMarginAccount {
    pub authority: Pubkey,
    pub delegated_pubkey: Pubkey,
    pub balance: u64,
    pub subaccount_index: u8,
    pub nonce: u8,
    pub force_cancel_flag: bool,
    pub account_type: MarginAccountType,
    pub open_orders_nonces: [u8; MAX_PERP_MARKETS],
    pub rebalance_amount: i64,
    pub last_funding_deltas: [AnchorDecimal; MAX_PERP_MARKETS],
    pub product_ledgers: [ProductLedger; MAX_PERP_MARKETS],
    pub _padding: [u8; 2000],
}

/// Ring buffer of funding deltas awaiting settlement.
#[derive(Clone, Copy)]
pub struct PerpSyncQueue {
    pub nonce: u8,
    pub head: u16,
    pub length: u16,
    pub queue: [AnchorDecimal; 600],
}

/// Per-market prices, funding and parameters.
#[derive(Clone, Copy)]
pub struct Pricing {
    pub nonce: u8,
    pub mark_prices: [u64; MAX_PERP_MARKETS],
    pub update_timestamps: [u64; MAX_PERP_MARKETS],
    pub funding_deltas: [AnchorDecimal; MAX_PERP_MARKETS],
    pub latest_funding_rates: [AnchorDecimal; MAX_PERP_MARKETS],
    pub latest_midpoints: [u64; MAX_PERP_MARKETS],
    pub oracles: [Pubkey; MAX_PERP_MARKETS],
    pub oracle_backup_feeds: [Pubkey; MAX_PERP_MARKETS],
    pub markets: [Pubkey; MAX_PERP_MARKETS],
    pub perp_sync_queues: [Pubkey; MAX_PERP_MARKETS],
    pub perp_parameters: [PerpParameters; MAX_PERP_MARKETS],
    pub margin_parameters: [MarginParameters; MAX_PERP_MARKETS],
    pub products: [Product; MAX_PERP_MARKETS],
    pub zeta_group_keys: [Pubkey; MAX_PERP_MARKETS],
    pub total_insurance_vault_deposits: u64,
    pub last_withdraw_timestamp: u64,
    pub net_outflow_sum: i64,
    pub halt_force_pricing: [bool; MAX_PERP_MARKETS],
    pub _padding: [u8; 2707],
}

/// A 128-bit decimal in Anchor's serialized layout.
#[derive(Clone, Copy, Default)]
pub struct AnchorDecimal {
    pub flags: u32,
    pub hi: u32,
    pub lo: u32,
    pub mid: u32,
}

/// Maps a user and subaccount to their cross-margin open-orders account.
#[derive(Clone, Copy, Default)]
pub struct CrossOpenOrdersMap {
    pub user_key: Pubkey,
    pub subaccount_index: u8,
}

/// Maps a user to their open-orders account.
#[derive(Clone, Copy, Default)]
pub struct OpenOrdersMap {
    pub user_key: Pubkey,
}

/// Resting orders of one market: lots closing the position and opening lots per side.
#[derive(Clone, Copy, Default)]
pub struct OrderState {
    pub closing_orders: u64,
    pub opening_orders: [u64; 2],
}

/// Absolute value.
pub open spec fn abs(x: int) -> int {
    if x < 0 { -x } else { x }
}

/// Integer division as Rust's `/` performs it: the quotient is rounded toward zero.
pub open spec fn trunc_div(a: int, d: int) -> int {
    if a >= 0 { a / d } else { -((-a) / d) }
}

/// Unrealized profit and loss, in native quote units, of a position of `size`
/// lots (three decimals) bought or sold for `cost` when the mark price is `mark`.
pub open spec fn unrealized_pnl(size: int, cost: int, mark: int) -> int {
    let value = trunc_div(size * mark, POSITION_PRECISION_DENOMINATOR as int);
    if size == 0 {
        0
    } else if size > 0 {
        value - cost
    } else {
        value + cost
    }
}

/// A signed position: positive `size` is long, negative is short.
#[derive(Clone, Copy, Default)]
pub struct Position {
    pub size: i64,
    pub cost_of_trades: u64,
}

impl Position {
    /// The number of lots held, whatever the side.
    pub fn size_abs(&self) -> (r: u64)
        ensures
            r == abs(self.size as int),
    {
        if self.size >= 0 {
            self.size as u64
        } else {
            (-(self.size + 1)) as u64 + 1
        }
    }

    /// Unrealized profit and loss at `mark_price`.
    pub fn get_unrealized_pnl(&self, mark_price: u64) -> (r: i64)
        requires
            i64::MIN <= unrealized_pnl(self.size as int, self.cost_of_trades as int, mark_price as int)
                <= i64::MAX,
        ensures
            r == unrealized_pnl(self.size as int, self.cost_of_trades as int, mark_price as int),
    {
        if self.size == 0 {
            return 0;
        }
        let lots = self.size_abs();
        assert((lots as u128) * (mark_price as u128) <= 0x8000_0000_0000_0000u128 * 0xffff_ffff_ffff_ffffu128)
            by (nonlinear_arith)
            requires
                lots <= 0x8000_0000_0000_0000u64,
        ;
        let magnitude: u128 = (lots as u128) * (mark_price as u128) / POSITION_PRECISION_DENOMINATOR;
        proof {
            let size = self.size as int;
            let mark = mark_price as int;
            if size > 0 {
                assert(size * mark == lots * mark);
                assert(size * mark >= 0) by (nonlinear_arith)
                    requires
                        size > 0,
                        mark >= 0,
                ;
            } else {
                assert(size * mark == -(lots * mark)) by (nonlinear_arith)
                    requires
                        lots == -size,
                ;
                assert(lots * mark >= 0) by (nonlinear_arith)
                    requires
                        lots >= 0,
                        mark >= 0,
                ;
            }
        }
        if self.size > 0 {
            ((magnitude as i128) - (self.cost_of_trades as i128)) as i64
        } else {
            ((self.cost_of_trades as i128) - (magnitude as i128)) as i64
        }
    }
}

/// The strike handed to the per-lot margin computation of a product: zero for a
/// perpetual, the stored strike for any other kind once it is set, and `None`
/// (no margin is charged) when a non-perpetual has no strike yet.
pub open spec fn strike_for_margin(product: Product) -> Option<u64> {
    if product.kind == Kind::Perp {
        Some(0u64)
    } else if product.strike.spec_is_set() {
        Some(product.strike.spec_value())
    } else {
        None
    }
}

impl Product {
    /// The strike the margin of this product is computed with; `None` when a
    /// non-perpetual product has no strike yet, in which case no margin is charged.
    pub fn margin_strike(&self) -> (r: Option<u64>)
        ensures
            r == strike_for_margin(*self),
    {
        if self.kind == Kind::Perp {
            Some(0)
        } else {
            match self.strike.get_strike() {
                Ok(strike) => Some(strike),
                Err(_) => None,
            }
        }
    }
}

/// Initial margin, in native units, of `long_lots` and `short_lots` (three
/// decimals) charged `long_per_lot` and `short_per_lot` per lot: futures and
/// perpetuals pay for the larger side only, other kinds for both sides.
pub open spec fn initial_margin(
    kind: Kind,
    long_lots: int,
    short_lots: int,
    long_per_lot: int,
    short_per_lot: int,
) -> int {
    let long_margin = long_lots * long_per_lot;
    let short_margin = short_lots * short_per_lot;
    let denominator = POSITION_PRECISION_DENOMINATOR as int;
    if kind == Kind::Future || kind == Kind::Perp {
        if long_lots > short_lots {
            long_margin / denominator
        } else {
            short_margin / denominator
        }
    } else {
        (long_margin + short_margin) / denominator
    }
}

/// Maintenance margin, in native units, of a position of `size` lots charged
/// `per_lot` per lot.
pub open spec fn maintenance_margin(size: int, per_lot: int) -> int {
    (abs(size) * per_lot) / (POSITION_PRECISION_DENOMINATOR as int)
}

/// A trader's position and resting orders in one market.
#[derive(Clone, Copy, Default)]
pub struct ProductLedger {
    pub position: Position,
    pub order_state: OrderState,
}

impl ProductLedger {
    /// Lots that would be long if every resting bid filled.
    pub open spec fn long_lots(&self) -> int {
        self.order_state.opening_orders[BID_ORDERS_INDEX as int] as int + if self.position.size > 0 {
            self.position.size as int
        } else {
            0
        }
    }

    /// Lots that would be short if every resting ask filled.
    pub open spec fn short_lots(&self) -> int {
        self.order_state.opening_orders[ASK_ORDERS_INDEX as int] as int + if self.position.size < 0 {
            -(self.position.size as int)
        } else {
            0
        }
    }

    /// Whether the initial margin of this ledger for `product` stays within the
    /// machine integers the computation runs in.
    pub open spec fn initial_margin_fits(
        &self,
        product: Product,
        long_margin_per_lot: u64,
        short_margin_per_lot: u64,
    ) -> bool {
        strike_for_margin(product) is Some ==> {
            &&& self.long_lots() <= u64::MAX
            &&& self.short_lots() <= u64::MAX
            &&& !(product.kind == Kind::Future || product.kind == Kind::Perp) ==> self.long_lots()
                * long_margin_per_lot + self.short_lots() * short_margin_per_lot <= u128::MAX
            &&& initial_margin(
                product.kind,
                self.long_lots(),
                self.short_lots(),
                long_margin_per_lot as int,
                short_margin_per_lot as int,
            ) <= u64::MAX
        }
    }

    /// Initial margin of this ledger's position and opening orders in `product`,
    /// given the per-lot initial margin of the long side (bids) and of the short
    /// side (asks) for the product's margin strike.
    pub fn get_initial_margin(
        &self,
        product: &Product,
        long_margin_per_lot: u64,
        short_margin_per_lot: u64,
    ) -> (r: u64)
        requires
            self.initial_margin_fits(*product, long_margin_per_lot, short_margin_per_lot),
        ensures
            r == match strike_for_margin(*product) {
                None => 0,
                Some(_) => initial_margin(
                    product.kind,
                    self.long_lots(),
                    self.short_lots(),
                    long_margin_per_lot as int,
                    short_margin_per_lot as int,
                ),
            },
    {
        if product.margin_strike().is_none() {
            return 0;
        }
        let mut long_lots: u64 = self.order_state.opening_orders[BID_ORDERS_INDEX];
        let mut short_lots: u64 = self.order_state.opening_orders[ASK_ORDERS_INDEX];
        if self.position.size > 0 {
            long_lots = long_lots + self.position.size_abs();
        } else if self.position.size < 0 {
            short_lots = short_lots + self.position.size_abs();
        }

        let mut long_initial_margin: u128 = 0;
        let mut short_initial_margin: u128 = 0;
        proof {
            vstd::arithmetic::mul::lemma_mul_upper_bound(
                long_lots as int, u64::MAX as int, long_margin_per_lot as int, u64::MAX as int);
            vstd::arithmetic::mul::lemma_mul_upper_bound(
                short_lots as int, u64::MAX as int, short_margin_per_lot as int, u64::MAX as int);
            vstd::arithmetic::mul::lemma_mul_basics(long_margin_per_lot as int);
            vstd::arithmetic::mul::lemma_mul_basics(short_margin_per_lot as int);
        }
        if long_lots > 0 {
            long_initial_margin = (long_lots as u128) * (long_margin_per_lot as u128);
        }
        if short_lots > 0 {
            short_initial_margin = (short_lots as u128) * (short_margin_per_lot as u128);
        }

        if product.kind == Kind::Future || product.kind == Kind::Perp {
            if long_lots > short_lots {
                return (long_initial_margin / POSITION_PRECISION_DENOMINATOR) as u64;
            } else {
                return (short_initial_margin / POSITION_PRECISION_DENOMINATOR) as u64;
            }
        }
        ((long_initial_margin + short_initial_margin) / POSITION_PRECISION_DENOMINATOR) as u64
    }

    /// Maintenance margin of this ledger's position in `product`, given the
    /// per-lot maintenance margin of the position's side (long when the size is
    /// not negative) for the product's margin strike. The quotient is truncated
    /// to its low 64 bits.
    pub fn get_maintenance_margin(&self, product: &Product, margin_per_lot: u64) -> (r: u64)
        ensures
            r == if self.position.size == 0 || strike_for_margin(*product) is None {
                0
            } else {
                maintenance_margin(self.position.size as int, margin_per_lot as int)
                    % 0x1_0000_0000_0000_0000
            },
    {
        if self.position.size == 0 {
            return 0;
        }
        if product.margin_strike().is_none() {
            return 0;
        }
        let lots = self.position.size_abs();
        proof {
            vstd::arithmetic::mul::lemma_mul_upper_bound(
                lots as int, u64::MAX as int, margin_per_lot as int, u64::MAX as int);
        }
        let margin: u128 = (lots as u128) * (margin_per_lot as u128) / POSITION_PRECISION_DENOMINATOR;
        assert(margin as u64 == margin % 0x1_0000_0000_0000_0000) by (bit_vector);
        margin as u64
    }
}

/// Side of an order.
#[derive(Clone, Copy, Debug, PartialEq, Eq, Structural)]
pub enum Side {
    Uninitialized,
    Bid,
    Ask,
}

/// Margin regime of an account.
#[derive(Clone, Copy, Debug, PartialEq, Eq, Structural)]
pub enum MarginAccountType {
    Normal,
    MarketMaker,
}

/// Halt status of one market.
#[derive(Clone, Copy)]
pub struct HaltStateV2 {
    halted: bool,
    timestamp: u64,
    spot_price: u64,
    market_cleaned: bool,
}

/// Kind of a listed product.
#[derive(Clone, Copy, Debug, PartialEq, Eq, Structural)]
pub enum Kind {
    Uninitialized,
    Call,
    Put,
    Future,
    Perp,
}

/// Time-in-force and matching behaviour of an order.
#[derive(Clone, Copy, Debug, PartialEq, Eq, Structural)]
pub enum OrderType {
    Limit,
    PostOnly,
    FillOrKill,
    ImmediateOrCancel,
    PostOnlySlide,
}

/// An underlying asset, in the order the exchange's interface lists them.
///
/// The variants carry no explicit discriminants here, so `Asset::UNDEFINED as u8`
/// is 17, while the exchange's own numbering gives it 255 (every other variant
/// keeps its number). `asset_to_u8` gives the exchange's number. `asset_index`
/// gives the byte the serialized form uses, which is the declaration position
/// (17 for `UNDEFINED`); the serializable copy of this enum beside the library
/// keeps the exchange's numbering, 255 included.
#[derive(Clone, Copy, Debug, PartialEq, Eq, Structural)]
pub enum Asset {
    Solana,
    Bitcoin,
    Ethereum,
    Aptos,
    Arbitrum,
    BNB,
    Pyth,
    Celestia,
    Jito,
    MillionBonk,
    Sei,
    Jupiter,
    Dym,
    Starknet,
    Dogwifhat,
    Render,
    Tensor,
    UNDEFINED,
}

/// The byte that encodes an asset in the exchange's serialized form: its
/// position in the declaration, counted from zero.
pub open spec fn asset_index(asset: Asset) -> u8 {
    match asset {
        Asset::Solana => 0u8,
        Asset::Bitcoin => 1u8,
        Asset::Ethereum => 2u8,
        Asset::Aptos => 3u8,
        Asset::Arbitrum => 4u8,
        Asset::BNB => 5u8,
        Asset::Pyth => 6u8,
        Asset::Celestia => 7u8,
        Asset::Jito => 8u8,
        Asset::MillionBonk => 9u8,
        Asset::Sei => 10u8,
        Asset::Jupiter => 11u8,
        Asset::Dym => 12u8,
        Asset::Starknet => 13u8,
        Asset::Dogwifhat => 14u8,
        Asset::Render => 15u8,
        Asset::Tensor => 16u8,
        Asset::UNDEFINED => 17u8,
    }
}

/// The asset a one-byte serialized value decodes to, if any.
pub open spec fn asset_of_byte(data: u8) -> Option<Asset> {
    match data {
        0u8 => Some(Asset::Solana),
        1u8 => Some(Asset::Bitcoin),
        2u8 => Some(Asset::Ethereum),
        3u8 => Some(Asset::Aptos),
        4u8 => Some(Asset::Arbitrum),
        5u8 => Some(Asset::BNB),
        6u8 => Some(Asset::Pyth),
        7u8 => Some(Asset::Celestia),
        8u8 => Some(Asset::Jito),
        9u8 => Some(Asset::MillionBonk),
        10u8 => Some(Asset::Sei),
        11u8 => Some(Asset::Jupiter),
        12u8 => Some(Asset::Dym),
        13u8 => Some(Asset::Starknet),
        14u8 => Some(Asset::Dogwifhat),
        15u8 => Some(Asset::Render),
        16u8 => Some(Asset::Tensor),
        17u8 => Some(Asset::UNDEFINED),
        _ => None,
    }
}

/// The ticker of an asset.
pub open spec fn asset_ticker(asset: Asset) -> Seq<char> {
    match asset {
        Asset::Solana => "SOL"@,
        Asset::Bitcoin => "BTC"@,
        Asset::Ethereum => "ETH"@,
        Asset::Aptos => "APT"@,
        Asset::Arbitrum => "ARB"@,
        Asset::BNB => "BNB"@,
        Asset::Pyth => "PYTH"@,
        Asset::Celestia => "TIA"@,
        Asset::Jito => "JTO"@,
        Asset::MillionBonk => "BONK"@,
        Asset::Sei => "SEI"@,
        Asset::Jupiter => "JUP"@,
        Asset::Dym => "DYM"@,
        Asset::Starknet => "STRK"@,
        Asset::Dogwifhat => "WIF"@,
        Asset::Render => "RNDR"@,
        Asset::Tensor => "TNSR"@,
        Asset::UNDEFINED => "UNDEFINED"@,
    }
}

/// Decodes an asset from its one-byte serialized form: the declaration index of
/// the variant; bytes past the last variant decode to nothing.
pub fn asset_from_byte(data: u8) -> (r: Option<Asset>)
    ensures
        r == asset_of_byte(data),
{
    match data {
        0 => Some(Asset::Solana),
        1 => Some(Asset::Bitcoin),
        2 => Some(Asset::Ethereum),
        3 => Some(Asset::Aptos),
        4 => Some(Asset::Arbitrum),
        5 => Some(Asset::BNB),
        6 => Some(Asset::Pyth),
        7 => Some(Asset::Celestia),
        8 => Some(Asset::Jito),
        9 => Some(Asset::MillionBonk),
        10 => Some(Asset::Sei),
        11 => Some(Asset::Jupiter),
        12 => Some(Asset::Dym),
        13 => Some(Asset::Starknet),
        14 => Some(Asset::Dogwifhat),
        15 => Some(Asset::Render),
        16 => Some(Asset::Tensor),
        17 => Some(Asset::UNDEFINED),
        _ => None,
    }
}

/// The number the exchange gives an asset (its discriminant on chain): the
/// declaration position, except 255 for `UNDEFINED`.
pub open spec fn asset_number(asset: Asset) -> u8 {
    match asset {
        Asset::Solana => 0u8,
        Asset::Bitcoin => 1u8,
        Asset::Ethereum => 2u8,
        Asset::Aptos => 3u8,
        Asset::Arbitrum => 4u8,
        Asset::BNB => 5u8,
        Asset::Pyth => 6u8,
        Asset::Celestia => 7u8,
        Asset::Jito => 8u8,
        Asset::MillionBonk => 9u8,
        Asset::Sei => 10u8,
        Asset::Jupiter => 11u8,
        Asset::Dym => 12u8,
        Asset::Starknet => 13u8,
        Asset::Dogwifhat => 14u8,
        Asset::Render => 15u8,
        Asset::Tensor => 16u8,
        Asset::UNDEFINED => 255u8,
    }
}

/// The exchange's number for an asset; use it in place of `as u8`, which gives
/// the declaration position (17 for `UNDEFINED`).
pub fn asset_to_u8(asset: Asset) -> (r: u8)
    ensures
        r == asset_number(asset),
{
    match asset {
        Asset::Solana => 0,
        Asset::Bitcoin => 1,
        Asset::Ethereum => 2,
        Asset::Aptos => 3,
        Asset::Arbitrum => 4,
        Asset::BNB => 5,
        Asset::Pyth => 6,
        Asset::Celestia => 7,
        Asset::Jito => 8,
        Asset::MillionBonk => 9,
        Asset::Sei => 10,
        Asset::Jupiter => 11,
        Asset::Dym => 12,
        Asset::Starknet => 13,
        Asset::Dogwifhat => 14,
        Asset::Render => 15,
        Asset::Tensor => 16,
        Asset::UNDEFINED => 255,
    }
}

/// The ticker of an asset.
pub fn asset_to_string(asset: Asset) -> (r: String)
    ensures
        r@ == asset_ticker(asset),
{
    broadcast use vstd::string::group_string_axioms;
    match asset {
        Asset::Solana => "SOL".to_string(),
        Asset::Bitcoin => "BTC".to_string(),
        Asset::Ethereum => "ETH".to_string(),
        Asset::Aptos => "APT".to_string(),
        Asset::Arbitrum => "ARB".to_string(),
        Asset::BNB => "BNB".to_string(),
        Asset::Pyth => "PYTH".to_string(),
        Asset::Celestia => "TIA".to_string(),
        Asset::Jito => "JTO".to_string(),
        Asset::MillionBonk => "BONK".to_string(),
        Asset::Sei => "SEI".to_string(),
        Asset::Jupiter => "JUP".to_string(),
        Asset::Dym => "DYM".to_string(),
        Asset::Starknet => "STRK".to_string(),
        Asset::Dogwifhat => "WIF".to_string(),
        Asset::Render => "RNDR".to_string(),
        Asset::Tensor => "TNSR".to_string(),
        Asset::UNDEFINED => "UNDEFINED".to_string(),
    }
}

/// How many units of the asset one quoted unit stands for.
pub fn asset_multiplier(asset: Asset) -> (r: u64)
    ensures
        r == if asset == Asset::MillionBonk { 1_000_000u64 } else { 1u64 },
{
    match asset {
        Asset::MillionBonk => 1_000_000,
        _ => 1,
    }
}

/// How an order left the book.
#[derive(Clone, Copy, Debug, PartialEq, Eq, Structural)]
pub enum OrderCompleteType {
    Cancel,
    Fill,
    Booted,
}

} // verus!
