use vstd::prelude::*;

use vstd::arithmetic::div_mod::lemma_div_is_ordered;
use vstd::arithmetic::mul::{lemma_mul_inequality, lemma_mul_is_commutative, lemma_mul_unary_negation};

use crate::account::{
    abs, asset_index, asset_number, asset_of_byte, initial_margin, maintenance_margin,
    strike_for_margin, trunc_div, unrealized_pnl, Asset, Kind, OrderState, Position, Product,
    ProductLedger,
};
use crate::constants::POSITION_PRECISION_DENOMINATOR;

verus! {

/// Turning a position around (same lots, opposite side, same cost) turns its
/// unrealized profit into an equal loss, and the other way round.
pub proof fn lemma_pnl_opposite_sides(size: i64, cost: u64, mark: u64)
    requires
        size > i64::MIN,
    ensures
        unrealized_pnl(-(size as int), cost as int, mark as int) == -unrealized_pnl(
            size as int,
            cost as int,
            mark as int,
        ),
{
    let s = size as int;
    let m = mark as int;
    lemma_mul_unary_negation(s, m);
    assert((-s) * m == -(s * m));
}

/// A long position gains and a short position loses when the mark price rises.
pub proof fn lemma_pnl_follows_mark(size: i64, cost: u64, mark_low: u64, mark_high: u64)
    requires
        mark_low <= mark_high,
    ensures
        size >= 0 ==> unrealized_pnl(size as int, cost as int, mark_low as int) <= unrealized_pnl(
            size as int,
            cost as int,
            mark_high as int,
        ),
        size <= 0 ==> unrealized_pnl(size as int, cost as int, mark_low as int) >= unrealized_pnl(
            size as int,
            cost as int,
            mark_high as int,
        ),
{
    let s = size as int;
    let lo = mark_low as int;
    let hi = mark_high as int;
    let d = POSITION_PRECISION_DENOMINATOR as int;
    if s > 0 {
        lemma_mul_inequality(lo, hi, s);
        lemma_mul_is_commutative(lo, s);
        lemma_mul_is_commutative(hi, s);
        assert(s * lo >= 0) by (nonlinear_arith)
            requires
                s > 0,
                lo >= 0,
        ;
        lemma_div_is_ordered(s * lo, s * hi, d);
    } else if s < 0 {
        lemma_mul_inequality(lo, hi, -s);
        lemma_mul_is_commutative(lo, -s);
        lemma_mul_is_commutative(hi, -s);
        lemma_mul_unary_negation(s, lo);
        lemma_mul_unary_negation(s, hi);
        assert((-s) * lo >= 0) by (nonlinear_arith)
            requires
                s < 0,
                lo >= 0,
        ;
        lemma_div_is_ordered((-s) * lo, (-s) * hi, d);
        assert(trunc_div(s * lo, d) >= trunc_div(s * hi, d));
    }
}

/// Decoding is the inverse of the one-byte encoding: every asset's byte decodes
/// back to that asset, and a byte that decodes at all is the encoding of what it
/// decodes to.
pub proof fn lemma_asset_encoding_round_trip(asset: Asset, data: u8)
    ensures
        asset_of_byte(asset_index(asset)) == Some(asset),
        asset_of_byte(data) matches Some(a) ==> asset_index(a) == data,
        asset_of_byte(data) is Some <==> data < 18,
{
}

/// The exchange's number of an asset is its serialized byte for every asset but
/// `UNDEFINED`, which is numbered 255 and serialized as 17; distinct assets have
/// distinct numbers.
pub proof fn lemma_asset_number_and_index(asset: Asset, other: Asset)
    ensures
        asset != Asset::UNDEFINED ==> asset_number(asset) == asset_index(asset),
        asset_number(Asset::UNDEFINED) == 255 && asset_index(Asset::UNDEFINED) == 17,
        asset != other ==> asset_number(asset) != asset_number(other),
{
}

/// A ledger with no position and no resting orders needs no initial margin, and
/// raising either per-lot margin never lowers the initial margin.
pub proof fn lemma_initial_margin_monotone(
    kind: Kind,
    long_lots: u64,
    short_lots: u64,
    long_per_lot: u64,
    short_per_lot: u64,
    long_per_lot_higher: u64,
    short_per_lot_higher: u64,
)
    requires
        long_per_lot <= long_per_lot_higher,
        short_per_lot <= short_per_lot_higher,
    ensures
        initial_margin(kind, 0, 0, long_per_lot as int, short_per_lot as int) == 0,
        initial_margin(
            kind,
            long_lots as int,
            short_lots as int,
            long_per_lot as int,
            short_per_lot as int,
        ) <= initial_margin(
            kind,
            long_lots as int,
            short_lots as int,
            long_per_lot_higher as int,
            short_per_lot_higher as int,
        ),
{
    let d = POSITION_PRECISION_DENOMINATOR as int;
    let ll = long_lots as int;
    let sl = short_lots as int;
    lemma_mul_inequality(long_per_lot as int, long_per_lot_higher as int, ll);
    lemma_mul_inequality(short_per_lot as int, short_per_lot_higher as int, sl);
    lemma_mul_is_commutative(long_per_lot as int, ll);
    lemma_mul_is_commutative(long_per_lot_higher as int, ll);
    lemma_mul_is_commutative(short_per_lot as int, sl);
    lemma_mul_is_commutative(short_per_lot_higher as int, sl);
    assert(0 * (long_per_lot as int) == 0 && 0 * (short_per_lot as int) == 0);
    lemma_div_is_ordered(ll * long_per_lot, ll * long_per_lot_higher, d);
    lemma_div_is_ordered(sl * short_per_lot, sl * short_per_lot_higher, d);
    lemma_div_is_ordered(
        ll * long_per_lot + sl * short_per_lot,
        ll * long_per_lot_higher + sl * short_per_lot_higher,
        d,
    );
}

/// The maintenance margin depends on the number of lots, not on the side, and
/// never falls when the per-lot margin rises.
pub proof fn lemma_maintenance_margin_side_blind(
    size: i64,
    per_lot: u64,
    per_lot_higher: u64,
)
    requires
        size > i64::MIN,
        per_lot <= per_lot_higher,
    ensures
        maintenance_margin(-(size as int), per_lot as int) == maintenance_margin(
            size as int,
            per_lot as int,
        ),
        maintenance_margin(size as int, per_lot as int) <= maintenance_margin(
            size as int,
            per_lot_higher as int,
        ),
{
    let a = abs(size as int);
    assert(abs(-(size as int)) == a);
    lemma_mul_inequality(per_lot as int, per_lot_higher as int, a);
    lemma_mul_is_commutative(per_lot as int, a);
    lemma_mul_is_commutative(per_lot_higher as int, a);
    lemma_div_is_ordered(a * per_lot, a * per_lot_higher, POSITION_PRECISION_DENOMINATOR as int);
}

/// Every kind but futures and perpetuals (calls, puts and uninitialized products)
/// is charged for both sides: the margin `m` is the whole number of native units in
/// the long lots' margin plus the short lots' margin, and each further thousandth
/// of short lots (one lot) adds exactly its per-lot margin, whatever the long side.
pub proof fn lemma_option_margin_charges_both_sides(
    kind: Kind,
    long_lots: u64,
    short_lots: u64,
    long_per_lot: u64,
    short_per_lot: u64,
)
    requires
        kind != Kind::Future,
        kind != Kind::Perp,
    ensures
        ({
            let m = initial_margin(
                kind,
                long_lots as int,
                short_lots as int,
                long_per_lot as int,
                short_per_lot as int,
            );
            let charged = long_lots * long_per_lot + short_lots * short_per_lot;
            1000 * m <= charged < 1000 * (m + 1)
        }),
        initial_margin(
            kind,
            long_lots as int,
            short_lots + 1000,
            long_per_lot as int,
            short_per_lot as int,
        ) == initial_margin(
            kind,
            long_lots as int,
            short_lots as int,
            long_per_lot as int,
            short_per_lot as int,
        ) + short_per_lot,
{
    let charged = long_lots * long_per_lot + short_lots * short_per_lot;
    assert((short_lots + 1000) * short_per_lot == short_lots * short_per_lot + 1000 * short_per_lot)
        by (nonlinear_arith);
    assert(long_lots * long_per_lot >= 0 && short_lots * short_per_lot >= 0) by (nonlinear_arith);
}

/// Futures and perpetuals are charged for the side with more lots only (the short
/// side on a tie): the margin `m` is the whole number of native units in that
/// side's lots times its per-lot margin, and adding lots to the smaller side leaves
/// it unchanged as long as that side stays smaller.
pub proof fn lemma_future_margin_charges_larger_side(
    kind: Kind,
    long_lots: u64,
    short_lots: u64,
    long_per_lot: u64,
    short_per_lot: u64,
)
    requires
        kind == Kind::Future || kind == Kind::Perp,
    ensures
        ({
            let m = initial_margin(
                kind,
                long_lots as int,
                short_lots as int,
                long_per_lot as int,
                short_per_lot as int,
            );
            let charged = if long_lots > short_lots {
                long_lots * long_per_lot
            } else {
                short_lots * short_per_lot
            };
            1000 * m <= charged < 1000 * (m + 1)
        }),
        long_lots < short_lots ==> initial_margin(
            kind,
            long_lots + 1,
            short_lots as int,
            long_per_lot as int,
            short_per_lot as int,
        ) == initial_margin(
            kind,
            long_lots as int,
            short_lots as int,
            long_per_lot as int,
            short_per_lot as int,
        ),
{
    assert(long_lots * long_per_lot >= 0 && short_lots * short_per_lot >= 0) by (nonlinear_arith);
}

/// Closing orders are never margined, and the lots charged are the resting bids
/// plus a long position on the long side and the resting asks plus a short
/// position on the short side: changing the closing orders changes neither, one
/// more resting ask adds one short lot and leaves the long side, and a short
/// position adds its size to the short side only.
pub proof fn lemma_lots_ignore_closing_orders(
    position: Position,
    order_state: OrderState,
    other_closing_orders: u64,
)
    requires
        order_state.opening_orders[1] < u64::MAX,
    ensures
        ({
            let ledger = ProductLedger { position, order_state };
            let other = ProductLedger {
                position,
                order_state: OrderState { closing_orders: other_closing_orders, ..order_state },
            };
            let one_more_ask = ProductLedger {
                position,
                order_state: OrderState {
                    opening_orders: [
                        order_state.opening_orders[0],
                        (order_state.opening_orders[1] + 1) as u64,
                    ],
                    ..order_state
                },
            };
            &&& other.long_lots() == ledger.long_lots()
            &&& other.short_lots() == ledger.short_lots()
            &&& one_more_ask.short_lots() == ledger.short_lots() + 1
            &&& one_more_ask.long_lots() == ledger.long_lots()
            &&& position.size <= 0 ==> ledger.long_lots() == order_state.opening_orders[0]
            &&& position.size >= 0 ==> ledger.short_lots() == order_state.opening_orders[1]
            &&& ledger.short_lots() + ledger.long_lots() == order_state.opening_orders[0]
                + order_state.opening_orders[1] + abs(position.size as int)
        }),
{
    let one_more_ask = ProductLedger {
        position,
        order_state: OrderState {
            opening_orders: [
                order_state.opening_orders[0],
                (order_state.opening_orders[1] + 1) as u64,
            ],
            ..order_state
        },
    };
    assert(one_more_ask.order_state.opening_orders[0] == order_state.opening_orders[0]);
    assert(one_more_ask.order_state.opening_orders[1] == order_state.opening_orders[1] + 1);
}

/// The maintenance margin `m` of a position is the whole number of native units in
/// its lots times the per-lot margin, with no threshold on the size: it satisfies
/// `1000 * m <= |size| * per_lot < 1000 * (m + 1)`, so it is positive as soon as
/// `|size| * per_lot` reaches 1000, and one more lot on a long position adds exactly
/// the per-lot margin.
pub proof fn lemma_maintenance_margin_per_lot(size: i64, per_lot: u64)
    requires
        size < i64::MAX - 1000,
    ensures
        ({
            let m = maintenance_margin(size as int, per_lot as int);
            let charged = abs(size as int) * per_lot;
            &&& 1000 * m <= charged < 1000 * (m + 1)
            &&& charged >= 1000 ==> m >= 1
        }),
        size >= 0 ==> maintenance_margin(size + 1000, per_lot as int) == maintenance_margin(
            size as int,
            per_lot as int,
        ) + per_lot,
{
    let a = abs(size as int);
    assert(a * per_lot >= 0) by (nonlinear_arith)
        requires
            a >= 0,
    ;
    if size >= 0 {
        assert((size + 1000) * per_lot == size * per_lot + 1000 * per_lot) by (nonlinear_arith);
    }
}

/// The cost of trades is subtracted in full from a long position's value and
/// added in full to a short one's, whatever the size: one more unit of cost lowers
/// a long position's PnL by one and raises a short one's by one, and the PnL plus
/// (long) or minus (short) the cost is the position's value at the mark price,
/// rounded toward zero to whole native units. A flat position has no PnL,
/// whatever its recorded cost.
pub proof fn lemma_pnl_counts_cost_in_full(size: i64, cost: u64, mark: u64)
    requires
        cost < u64::MAX,
    ensures
        unrealized_pnl(0, cost as int, mark as int) == 0,
        size > 0 ==> unrealized_pnl(size as int, cost + 1, mark as int) == unrealized_pnl(
            size as int,
            cost as int,
            mark as int,
        ) - 1,
        size < 0 ==> unrealized_pnl(size as int, cost + 1, mark as int) == unrealized_pnl(
            size as int,
            cost as int,
            mark as int,
        ) + 1,
        size > 0 ==> ({
            let v = unrealized_pnl(size as int, cost as int, mark as int) + cost;
            1000 * v <= size * mark < 1000 * (v + 1)
        }),
        size < 0 ==> ({
            let v = cost - unrealized_pnl(size as int, cost as int, mark as int);
            1000 * v <= (-size) * mark < 1000 * (v + 1)
        }),
{
    let s = size as int;
    let m = mark as int;
    if s > 0 {
        assert(s * m >= 0) by (nonlinear_arith)
            requires
                s > 0,
                m >= 0,
        ;
    } else if s < 0 {
        lemma_mul_unary_negation(s, m);
        assert((-s) * m >= 0) by (nonlinear_arith)
            requires
                s < 0,
                m >= 0,
        ;
    }
}

/// Every product but a perpetual is margined at its own stored strike once one is
/// set, whatever its kind (the value `get_strike` returns); a perpetual at zero;
/// and a product of another kind with no strike yet is not margined at all.
pub proof fn lemma_margin_strike_is_stored_strike(product: Product, kind: Kind)
    ensures
        product.kind != Kind::Perp && product.strike.spec_is_set() ==> strike_for_margin(product)
            == Some(product.strike.spec_value()),
        product.kind != Kind::Perp && kind != Kind::Perp ==> strike_for_margin(product)
            == strike_for_margin(Product { kind, ..product }),
        product.kind == Kind::Perp ==> strike_for_margin(product) == Some(0u64),
        product.kind != Kind::Perp && !product.strike.spec_is_set() ==> strike_for_margin(product)
            is None,
{
}

} // verus!
