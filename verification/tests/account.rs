use solana_program::pubkey::Pubkey;
use zeta_abi::{
    asset_from_byte, asset_multiplier, asset_to_string, asset_to_u8, Asset, Kind, OrderState, Position,
    Product, ProductLedger, Strike, ZetaError, ASK_ORDERS_INDEX, BID_ORDERS_INDEX,
    MAX_PERP_MARKETS, POSITION_PRECISION_DENOMINATOR,
};

fn product(kind: Kind, strike: Strike) -> Product {
    Product { market: Pubkey::default(), strike, dirty: false, kind }
}

fn ledger(size: i64, bids: u64, asks: u64) -> ProductLedger {
    ProductLedger {
        position: Position { size, cost_of_trades: 0 },
        order_state: OrderState { closing_orders: 0, opening_orders: [bids, asks] },
    }
}

#[test]
fn constants_match_layout() {
    assert_eq!(MAX_PERP_MARKETS, 25);
    assert_eq!(POSITION_PRECISION_DENOMINATOR, 1000);
    assert_eq!(BID_ORDERS_INDEX, 0);
    assert_eq!(ASK_ORDERS_INDEX, 1);
}

#[test]
fn strike_unset_is_an_error() {
    let s = Strike::new(false, 42);
    assert!(!s.is_set());
    assert_eq!(s.get_strike(), Err(ZetaError::ProductStrikeUninitialized));
}

#[test]
fn strike_set_is_returned() {
    let s = Strike::new(true, 42);
    assert!(s.is_set());
    assert_eq!(s.get_strike(), Ok(42));
}

#[test]
fn size_abs_both_sides() {
    assert_eq!(Position { size: 0, cost_of_trades: 0 }.size_abs(), 0);
    assert_eq!(Position { size: 1234, cost_of_trades: 0 }.size_abs(), 1234);
    assert_eq!(Position { size: -1234, cost_of_trades: 0 }.size_abs(), 1234);
    assert_eq!(Position { size: i64::MAX, cost_of_trades: 0 }.size_abs(), i64::MAX as u64);
    assert_eq!(Position { size: i64::MIN, cost_of_trades: 0 }.size_abs(), 1u64 << 63);
}

#[test]
fn pnl_of_flat_position_is_zero() {
    assert_eq!(Position { size: 0, cost_of_trades: 500 }.get_unrealized_pnl(12345), 0);
}

#[test]
fn pnl_of_long_position() {
    let p = Position { size: 1500, cost_of_trades: 100 };
    assert_eq!(p.get_unrealized_pnl(2001), 2901);
    assert_eq!(p.get_unrealized_pnl(0), -100);
}

#[test]
fn pnl_of_short_position_rounds_toward_zero() {
    let p = Position { size: -1500, cost_of_trades: 100 };
    assert_eq!(p.get_unrealized_pnl(2001), -2901);
    assert_eq!(Position { size: -1, cost_of_trades: 0 }.get_unrealized_pnl(999), 0);
    assert_eq!(Position { size: 1, cost_of_trades: 0 }.get_unrealized_pnl(999), 0);
}

#[test]
fn pnl_opposite_sides_are_opposite() {
    for (size, cost, mark) in [(1500i64, 100u64, 2001u64), (7, 3, 123_456), (999_999, 12, 1)] {
        let long = Position { size, cost_of_trades: cost }.get_unrealized_pnl(mark);
        let short = Position { size: -size, cost_of_trades: cost }.get_unrealized_pnl(mark);
        assert_eq!(long, -short);
    }
}

#[test]
fn pnl_follows_mark_price() {
    let long = Position { size: 2500, cost_of_trades: 10 };
    let short = Position { size: -2500, cost_of_trades: 10 };
    let mut last_long = long.get_unrealized_pnl(0);
    let mut last_short = short.get_unrealized_pnl(0);
    for mark in [1u64, 10, 399, 400, 401, 100_000] {
        let l = long.get_unrealized_pnl(mark);
        let s = short.get_unrealized_pnl(mark);
        assert!(l >= last_long);
        assert!(s <= last_short);
        last_long = l;
        last_short = s;
    }
}

#[test]
fn pnl_large_values() {
    let p = Position { size: 1_000_000_000, cost_of_trades: u64::MAX / 4 };
    let expected = (1_000_000_000i128 * 1_000_000_000i128 / 1000) - (u64::MAX / 4) as i128;
    assert_eq!(p.get_unrealized_pnl(1_000_000_000) as i128, expected);
}

#[test]
fn margin_strike_by_kind() {
    assert_eq!(product(Kind::Perp, Strike::new(false, 9)).margin_strike(), Some(0));
    assert_eq!(product(Kind::Perp, Strike::new(true, 9)).margin_strike(), Some(0));
    assert_eq!(product(Kind::Future, Strike::new(true, 9)).margin_strike(), Some(9));
    assert_eq!(product(Kind::Call, Strike::new(false, 9)).margin_strike(), None);
}

#[test]
fn initial_margin_without_strike_is_zero() {
    let l = ledger(2000, 1000, 5000);
    assert_eq!(l.get_initial_margin(&product(Kind::Future, Strike::new(false, 5)), 10, 7), 0);
    assert_eq!(l.get_initial_margin(&product(Kind::Put, Strike::new(false, 5)), 10, 7), 0);
}

#[test]
fn initial_margin_perp_charges_larger_side() {
    let l = ledger(2000, 1000, 5000);
    // long 3000 lots * 10 = 30000, short 5000 lots * 7 = 35000; the short side is larger
    assert_eq!(l.get_initial_margin(&product(Kind::Perp, Strike::new(false, 0)), 10, 7), 35);
    assert_eq!(l.get_initial_margin(&product(Kind::Future, Strike::new(true, 5)), 10, 7), 35);
    // a long position large enough to outweigh the asks
    let l = ledger(9000, 1000, 5000);
    assert_eq!(l.get_initial_margin(&product(Kind::Perp, Strike::new(false, 0)), 10, 7), 100);
    // equal lots: the short side is charged
    let l = ledger(0, 4000, 4000);
    assert_eq!(l.get_initial_margin(&product(Kind::Perp, Strike::new(false, 0)), 10, 7), 28);
}

#[test]
fn initial_margin_short_position_adds_to_asks() {
    let l = ledger(-3000, 1000, 500);
    // long 1000 lots, short 3500 lots
    assert_eq!(l.get_initial_margin(&product(Kind::Perp, Strike::new(false, 0)), 100, 200), 700);
}

#[test]
fn initial_margin_option_charges_both_sides() {
    let l = ledger(2000, 1000, 5000);
    assert_eq!(l.get_initial_margin(&product(Kind::Call, Strike::new(true, 5)), 10, 7), 65);
    assert_eq!(l.get_initial_margin(&product(Kind::Uninitialized, Strike::new(true, 5)), 10, 7), 65);
}

#[test]
fn initial_margin_flat_ledger_is_zero() {
    let l = ledger(0, 0, 0);
    assert_eq!(l.get_initial_margin(&product(Kind::Perp, Strike::new(false, 0)), 1_000_000, 2_000_000), 0);
    assert_eq!(l.get_initial_margin(&product(Kind::Call, Strike::new(true, 1)), 1_000_000, 2_000_000), 0);
}

#[test]
fn initial_margin_rises_with_per_lot_margin() {
    let l = ledger(-1234, 777, 55);
    let p = product(Kind::Put, Strike::new(true, 100));
    let mut last = 0;
    for per_lot in [0u64, 1, 999, 1000, 5000, 1_000_000] {
        let m = l.get_initial_margin(&p, per_lot, per_lot);
        assert!(m >= last);
        last = m;
    }
}

#[test]
fn maintenance_margin_cases() {
    let perp = product(Kind::Perp, Strike::new(false, 0));
    assert_eq!(ledger(0, 100, 100).get_maintenance_margin(&perp, 999), 0);
    assert_eq!(ledger(2000, 0, 0).get_maintenance_margin(&perp, 999), 1998);
    assert_eq!(ledger(-2000, 0, 0).get_maintenance_margin(&perp, 999), 1998);
    let unset = product(Kind::Future, Strike::new(false, 7));
    assert_eq!(ledger(2000, 0, 0).get_maintenance_margin(&unset, 999), 0);
}

#[test]
fn maintenance_margin_keeps_low_bits() {
    let perp = product(Kind::Perp, Strike::new(false, 0));
    let size = 1i64 << 62;
    let expected = (((size as u128) * (u64::MAX as u128)) / 1000) as u64;
    assert_eq!(ledger(size, 0, 0).get_maintenance_margin(&perp, u64::MAX), expected);
}

#[test]
fn asset_bytes_decode_in_declaration_order() {
    let all = [
        Asset::Solana, Asset::Bitcoin, Asset::Ethereum, Asset::Aptos, Asset::Arbitrum,
        Asset::BNB, Asset::Pyth, Asset::Celestia, Asset::Jito, Asset::MillionBonk, Asset::Sei,
        Asset::Jupiter, Asset::Dym, Asset::Starknet, Asset::Dogwifhat, Asset::Render,
        Asset::Tensor, Asset::UNDEFINED,
    ];
    for (i, a) in all.iter().enumerate() {
        assert_eq!(asset_from_byte(i as u8), Some(*a));
    }
    assert_eq!(asset_from_byte(18), None);
    assert_eq!(asset_from_byte(255), None);
}

#[test]
fn asset_tickers() {
    let expected = [
        (Asset::Solana, "SOL"), (Asset::Bitcoin, "BTC"), (Asset::Ethereum, "ETH"),
        (Asset::Aptos, "APT"), (Asset::Arbitrum, "ARB"), (Asset::BNB, "BNB"),
        (Asset::Pyth, "PYTH"), (Asset::Celestia, "TIA"), (Asset::Jito, "JTO"),
        (Asset::MillionBonk, "BONK"), (Asset::Sei, "SEI"), (Asset::Jupiter, "JUP"),
        (Asset::Dym, "DYM"), (Asset::Starknet, "STRK"), (Asset::Dogwifhat, "WIF"),
        (Asset::Render, "RNDR"), (Asset::Tensor, "TNSR"), (Asset::UNDEFINED, "UNDEFINED"),
    ];
    for (a, t) in expected {
        assert_eq!(asset_to_string(a), t);
    }
}

#[test]
fn asset_multipliers() {
    assert_eq!(asset_multiplier(Asset::MillionBonk), 1_000_000);
    assert_eq!(asset_multiplier(Asset::Solana), 1);
    assert_eq!(asset_multiplier(Asset::UNDEFINED), 1);
}

#[test]
fn maintenance_margin_rises_with_per_lot_margin() {
    let perp = product(Kind::Perp, Strike::new(false, 0));
    let l = ledger(-4321, 0, 0);
    let mut last = 0;
    for per_lot in [0u64, 1, 231, 232, 1000, 77_777] {
        let m = l.get_maintenance_margin(&perp, per_lot);
        assert!(m >= last);
        last = m;
    }
}

#[test]
fn asset_numbers_follow_the_exchange() {
    assert_eq!(asset_to_u8(Asset::Solana), 0);
    assert_eq!(asset_to_u8(Asset::MillionBonk), 9);
    assert_eq!(asset_to_u8(Asset::Tensor), 16);
    assert_eq!(asset_to_u8(Asset::UNDEFINED), 255);
    // the serialized byte of UNDEFINED is its declaration position
    assert_eq!(asset_from_byte(17), Some(Asset::UNDEFINED));
    assert_eq!(asset_from_byte(asset_to_u8(Asset::UNDEFINED)), None);
    for b in 0u8..17 {
        assert_eq!(asset_to_u8(asset_from_byte(b).unwrap()), b);
    }
}
