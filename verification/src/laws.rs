//! What holds of the market as a whole.

use crate::ids::SYSTEM_PROGRAM_ID;
use crate::lemmas;
use crate::market;
use crate::market::{Action, MmError, Party, Quote, Trade, TreasuryAccount};
use crate::model;
use crate::params::{DEN, HALF_DEN, MAX_SUPPLY, P0_NUM, PHI_BPS, S0};
use vstd::prelude::*;

verus! {

/// The area is an area under the price `P(s) = P0 * (1 + s/S0)^2`: over any
/// interval it lies between the length times the price at the start and the
/// length times the price at the end. A price counts in `1 / S0^2` lamport and an
/// area in a third of that.
pub proof fn law_area_is_under_the_price(s: int, d: int)
    requires
        s >= 0,
        d >= 0,
    ensures
        DEN == 3 * (S0 * S0),
        model::price_numerator(0) == P0_NUM * (S0 * S0),
        3 * ((S0 + s) * (S0 + s)) * d <= model::n(s + d) - model::n(s) <= 3 * ((S0 + s + d) * (S0
            + s + d)) * d,
        3 * (model::price_numerator(s) * d) <= model::area_numerator(s, d) <= 3 * (
        model::price_numerator(s + d) * d),
{
    lemmas::lemma_n_difference(s, d);
    let u = S0 + s;
    let v = u + d;
    assert(0 <= 3 * u * (d * d) + d * d * d) by (nonlinear_arith)
        requires
            0 <= u,
            0 <= d,
    ;
    assert(3 * (u * u) * d + 3 * u * (d * d) + d * d * d <= 3 * (v * v) * d) by (nonlinear_arith)
        requires
            0 <= u,
            0 <= d,
            v == u + d,
    ;
    let (x, y) = (u * u, v * v);
    assert(3 * (P0_NUM * x * d) == 3 * x * d * P0_NUM) by (nonlinear_arith);
    assert(3 * (P0_NUM * y * d) == 3 * y * d * P0_NUM) by (nonlinear_arith);
}

/// The area charged to a buyer is the least number of lamports that is not
/// below the exact area.
pub proof fn law_area_up_is_least(s: int, d: int)
    ensures
        model::area_numerator(s, d) <= model::area_up(s, d) * DEN,
        (model::area_up(s, d) - 1) * DEN < model::area_numerator(s, d),
{
    lemmas::lemma_ceil_bounds(model::area_numerator(s, d), DEN as int);
    let a = model::area_up(s, d);
    assert((a - 1) * DEN == a * DEN - DEN) by (nonlinear_arith);
}

/// The area paid to a seller is the greatest number of lamports that is not
/// above the exact area.
pub proof fn law_area_down_is_greatest(s: int, d: int)
    ensures
        model::area_down(s, d) * DEN <= model::area_numerator(s, d),
        model::area_numerator(s, d) < (model::area_down(s, d) + 1) * DEN,
{
    lemmas::lemma_floor_bounds(model::area_numerator(s, d), DEN as int);
    let a = model::area_down(s, d);
    assert((a + 1) * DEN == a * DEN + DEN) by (nonlinear_arith);
}

/// The two roundings of an area differ by one lamport at most.
pub proof fn law_areas_differ_by_at_most_one(s: int, d: int)
    ensures
        model::area_down(s, d) <= model::area_up(s, d) <= model::area_down(s, d) + 1,
{
    lemmas::lemma_ceil_and_floor(model::area_numerator(s, d), DEN as int);
}

/// A buy costs the area plus half the spread, rounded up.
pub proof fn law_buy_charges_half_the_spread(s: int, d: int)
    ensures
        model::area_up(s, d) * (HALF_DEN + PHI_BPS) <= model::buy_cost(s, d) * HALF_DEN,
        (model::buy_cost(s, d) - 1) * HALF_DEN < model::area_up(s, d) * (HALF_DEN + PHI_BPS),
{
    lemmas::lemma_ceil_bounds(model::area_up(s, d) * (HALF_DEN + PHI_BPS), HALF_DEN as int);
}

/// A sell pays the area less half the spread, rounded down.
pub proof fn law_sell_withholds_half_the_spread(s_after: int, d: int)
    ensures
        model::sell_refund(s_after, d) * HALF_DEN <= model::area_down(s_after, d) * (HALF_DEN
            - PHI_BPS),
        model::area_down(s_after, d) * (HALF_DEN - PHI_BPS) < (model::sell_refund(s_after, d) + 1)
            * HALF_DEN,
{
    lemmas::lemma_floor_bounds(
        model::area_down(s_after, d) * (HALF_DEN - PHI_BPS),
        HALF_DEN as int,
    );
}

/// Each side of every trade collects something.
pub proof fn law_both_sides_collect(s: int, d: int)
    requires
        s >= 0,
        d >= 1,
    ensures
        model::buy_spread(s, d) > 0,
        model::sell_spread(s, d) > 0,
        model::area_up(s, d) >= 100 * d,
        model::area_down(s, d) >= 100 * d,
{
    lemmas::lemma_area_numerator_growth(s, d);
    law_area_up_is_least(s, d);
    law_area_down_is_greatest(s, d);
    let (a, b) = (model::area_up(s, d), model::area_down(s, d));
    assert((100 * d - 1) * DEN == 100 * d * DEN - DEN) by (nonlinear_arith);
    lemmas::lemma_factor_order(100 * d - 1, a, DEN as int);
    lemmas::lemma_factor_order(100 * d, b + 1, DEN as int);
    assert(a * (HALF_DEN + PHI_BPS) == a * 20_100);
    assert(b * (HALF_DEN - PHI_BPS) == b * 19_900);
}

/// The two sides share the spread evenly: what a buy adds to an area and what a
/// sell withholds from it differ by one lamport of rounding at most.
pub proof fn law_spread_split_is_symmetric(s: int, d: int)
    requires
        s >= 0,
        d >= 0,
    ensures
        model::sell_spread(s, d) <= model::buy_spread(s, d) <= model::sell_spread(s, d) + 1,
{
    law_areas_differ_by_at_most_one(s, d);
    let (a, b) = (model::area_up(s, d), model::area_down(s, d));
    assert(a * (HALF_DEN + PHI_BPS) == a * 20_100);
    assert(b * (HALF_DEN - PHI_BPS) == b * 19_900);
}

/// Buying an amount and selling it back at once never pays, and loses whenever
/// something was traded.
pub proof fn law_round_trip_never_profits(s: int, d: int)
    requires
        s >= 0,
        d >= 0,
    ensures
        model::sell_refund(s, d) <= model::buy_cost(s, d),
        d >= 1 ==> model::sell_refund(s, d) < model::buy_cost(s, d),
{
    if d >= 1 {
        law_both_sides_collect(s, d);
        law_areas_differ_by_at_most_one(s, d);
    } else {
        assert(model::area_numerator(s, 0) == 0);
        law_area_up_is_least(s, 0);
        law_area_down_is_greatest(s, 0);
        lemmas::lemma_factor_order(model::area_up(s, 0) - 1, 0, DEN as int);
        lemmas::lemma_factor_order(-1, model::area_up(s, 0), DEN as int);
        lemmas::lemma_factor_order(model::area_down(s, 0), 1, DEN as int);
    }
}

/// A round trip loses between 0.9% and 1.1% of its cost, once the rounding to
/// whole lamports no longer matters.
pub proof fn law_round_trip_costs_about_one_percent(s: int, d: int)
    requires
        s >= 0,
        d >= 29,
    ensures
        9 * model::buy_cost(s, d) <= 1000 * (model::buy_cost(s, d) - model::sell_refund(s, d))
            <= 11 * model::buy_cost(s, d),
{
    law_both_sides_collect(s, d);
    law_areas_differ_by_at_most_one(s, d);
    let (a, b) = (model::area_up(s, d), model::area_down(s, d));
    assert(a * (HALF_DEN + PHI_BPS) == a * 20_100);
    assert(b * (HALF_DEN - PHI_BPS) == b * 19_900);
}

/// What the pieces of a split buy cost together.
pub open spec fn cost_of_pieces(s: int, pieces: Seq<int>) -> int
    decreases pieces.len(),
{
    if pieces.len() == 0 {
        0
    } else {
        model::buy_cost(s, pieces[0]) + cost_of_pieces(s + pieces[0], pieces.drop_first())
    }
}

/// What the pieces of a split sell pay back together, from supply `s` down.
pub open spec fn refund_of_pieces(s: int, pieces: Seq<int>) -> int
    decreases pieces.len(),
{
    if pieces.len() == 0 {
        0
    } else {
        model::sell_refund(s - pieces[0], pieces[0]) + refund_of_pieces(
            s - pieces[0],
            pieces.drop_first(),
        )
    }
}

/// The size of all the pieces together.
pub open spec fn total(pieces: Seq<int>) -> int
    decreases pieces.len(),
{
    if pieces.len() == 0 {
        0
    } else {
        pieces[0] + total(pieces.drop_first())
    }
}

proof fn lemma_area_numerator_of_parts(s: int, d: int, e: int)
    ensures
        model::area_numerator(s, d + e) == model::area_numerator(s, d) + model::area_numerator(
            s + d,
            e,
        ),
{
    assert(s + (d + e) == s + d + e);
}

/// Splitting a buy in two never saves.
pub proof fn law_splitting_a_buy_in_two_never_saves(s: int, d: int, e: int)
    ensures
        model::buy_cost(s, d + e) <= model::buy_cost(s, d) + model::buy_cost(s + d, e),
{
    lemma_area_numerator_of_parts(s, d, e);
    lemmas::lemma_ceil_of_sum(
        model::area_numerator(s, d),
        model::area_numerator(s + d, e),
        DEN as int,
    );
    let (a, b, c) = (model::area_up(s, d), model::area_up(s + d, e), model::area_up(s, d + e));
    let k = (HALF_DEN + PHI_BPS) as int;
    assert(a * k == a * 20_100 && b * k == b * 20_100 && c * k == c * 20_100);
}

/// Splitting a sell in two never gains.
pub proof fn law_splitting_a_sell_in_two_never_gains(s_after: int, d: int, e: int)
    ensures
        model::sell_refund(s_after + d, e) + model::sell_refund(s_after, d) <= model::sell_refund(
            s_after,
            d + e,
        ),
{
    lemma_area_numerator_of_parts(s_after, d, e);
    lemmas::lemma_floor_of_sum(
        model::area_numerator(s_after, d),
        model::area_numerator(s_after + d, e),
        DEN as int,
    );
    let (a, b, c) = (
        model::area_down(s_after, d),
        model::area_down(s_after + d, e),
        model::area_down(s_after, d + e),
    );
    let k = (HALF_DEN - PHI_BPS) as int;
    assert(a * k == a * 19_900 && b * k == b * 19_900 && c * k == c * 19_900);
}

/// However a buy is split, the pieces together cost no less than the whole.
pub proof fn law_splitting_a_buy_never_saves(s: int, pieces: Seq<int>)
    requires
        s >= 0,
        forall|i: int| 0 <= i < pieces.len() ==> pieces[i] >= 0,
    ensures
        model::buy_cost(s, total(pieces)) <= cost_of_pieces(s, pieces),
    decreases pieces.len(),
{
    if pieces.len() == 0 {
        law_area_up_is_least(s, 0);
        lemmas::lemma_factor_order(model::area_up(s, 0) - 1, 0, DEN as int);
        lemmas::lemma_factor_order(-1, model::area_up(s, 0), DEN as int);
    } else {
        let rest = pieces.drop_first();
        law_splitting_a_buy_never_saves(s + pieces[0], rest);
        law_splitting_a_buy_in_two_never_saves(s, pieces[0], total(rest));
    }
}

/// However a sell is split, the pieces together pay no more than the whole.
pub proof fn law_splitting_a_sell_never_gains(s: int, pieces: Seq<int>)
    requires
        forall|i: int| 0 <= i < pieces.len() ==> pieces[i] >= 0,
        total(pieces) <= s,
    ensures
        refund_of_pieces(s, pieces) <= model::sell_refund(s - total(pieces), total(pieces)),
    decreases pieces.len(),
{
    if pieces.len() == 0 {
        law_area_down_is_greatest(s, 0);
        lemmas::lemma_factor_order(-1, model::area_down(s, 0), DEN as int);
    } else {
        let rest = pieces.drop_first();
        law_splitting_a_sell_never_gains(s - pieces[0], rest);
        law_splitting_a_sell_in_two_never_gains(s - total(pieces), total(rest), pieces[0]);
    }
}

/// The same amount costs at least as much higher on the curve, and pays back at
/// least as much.
pub proof fn law_prices_rise_with_supply(s: int, t: int, d: int)
    requires
        0 <= s <= t,
        d >= 0,
    ensures
        model::buy_cost(s, d) <= model::buy_cost(t, d),
        model::sell_refund(s, d) <= model::sell_refund(t, d),
{
    lemmas::lemma_n_convex(s, t, d);
    let (x, y) = (model::area_numerator(s, d), model::area_numerator(t, d));
    lemmas::lemma_rounding_is_monotone(x, y, DEN as int);
    lemma_commission_is_monotone(model::area_up(s, d), model::area_up(t, d));
    lemma_commission_is_monotone(model::area_down(s, d), model::area_down(t, d));
}

proof fn lemma_commission_is_monotone(a: int, b: int)
    requires
        a <= b,
    ensures
        model::ceil_quotient(a * (HALF_DEN + PHI_BPS), HALF_DEN as int) <= model::ceil_quotient(
            b * (HALF_DEN + PHI_BPS),
            HALF_DEN as int,
        ),
        a * (HALF_DEN - PHI_BPS) / (HALF_DEN as int) <= b * (HALF_DEN - PHI_BPS) / (
        HALF_DEN as int),
{
    let (j, k) = ((HALF_DEN + PHI_BPS) as int, (HALF_DEN - PHI_BPS) as int);
    assert(a * j == a * 20_100 && b * j == b * 20_100);
    assert(a * k == a * 19_900 && b * k == b * 19_900);
}

/// A larger amount costs at least as much, and pays back at least as much.
pub proof fn law_prices_rise_with_amount(s: int, d: int, e: int)
    requires
        s >= 0,
        0 <= d <= e,
    ensures
        model::buy_cost(s, d) <= model::buy_cost(s, e),
        model::sell_refund(s, d) <= model::sell_refund(s, e),
{
    lemmas::lemma_n_growth(s + d, e - d);
    let (x, y) = (model::area_numerator(s, d), model::area_numerator(s, e));
    lemmas::lemma_rounding_is_monotone(x, y, DEN as int);
    lemma_commission_is_monotone(model::area_up(s, d), model::area_up(s, e));
    lemma_commission_is_monotone(model::area_down(s, d), model::area_down(s, e));
}

/// The liability never falls as the supply rises.
pub proof fn law_liability_rises_with_supply(s: int, t: int)
    requires
        0 <= s <= t,
    ensures
        model::liability(s) <= model::liability(t),
{
    lemmas::lemma_n_growth(s, t - s);
    lemmas::lemma_rounding_is_monotone(model::n(s) * P0_NUM, model::n(t) * P0_NUM, DEN as int);
}

/// A sell pays back no more than the liability falls by, and the area it is paid
/// on follows that fall to the lamport.
pub proof fn law_refund_never_exceeds_the_liability_drop(s_post: int, d: int)
    requires
        s_post >= 0,
        d >= 0,
    ensures
        model::area_down(s_post, d) <= model::liability(s_post + d) - model::liability(s_post)
            <= model::area_down(s_post, d) + 1,
        model::sell_refund(s_post, d) <= model::liability(s_post + d) - model::liability(s_post),
{
    let (x, y) = (model::area_numerator(s_post, d), model::n(s_post) * P0_NUM);
    lemmas::lemma_ceil_step(x, y, DEN as int);
    lemmas::lemma_area_numerator_growth(s_post, d);
    law_area_down_is_greatest(s_post, d);
    let a = model::area_down(s_post, d);
    lemmas::lemma_factor_order(-1, a, DEN as int);
    assert(a * (HALF_DEN - PHI_BPS) == a * 19_900);
}

/// A buy brings in at least what the liability rises by, and the area it is
/// charged on follows that rise to the lamport.
pub proof fn law_buy_covers_the_liability_rise(s: int, d: int)
    requires
        s >= 0,
        d >= 0,
    ensures
        model::area_up(s, d) - 1 <= model::liability(s + d) - model::liability(s)
            <= model::area_up(s, d) <= model::buy_cost(s, d),
{
    let (x, y) = (model::area_numerator(s, d), model::n(s) * P0_NUM);
    lemmas::lemma_ceil_of_sum(x, y, DEN as int);
    lemmas::lemma_area_numerator_growth(s, d);
    law_area_up_is_least(s, d);
    let a = model::area_up(s, d);
    lemmas::lemma_factor_order(-1, a, DEN as int);
    assert(a * (HALF_DEN + PHI_BPS) == a * 20_100);
}

/// The cut never exceeds the spread, and never takes the vault below its rent
/// floor and liability.
pub proof fn law_cut_respects_both_caps(
    spread: int,
    vault_pre_cut: int,
    rent_floor: int,
    s_post: int,
)
    requires
        spread >= 0,
    ensures
        0 <= model::capped_cut(spread, vault_pre_cut, rent_floor, s_post) <= spread,
        vault_pre_cut >= rent_floor + model::liability(s_post) ==> vault_pre_cut
            - model::capped_cut(spread, vault_pre_cut, rent_floor, s_post) >= rent_floor
            + model::liability(s_post),
{
}

/// A vault at its minimum gives no cut.
pub proof fn law_cut_is_zero_at_the_floor(spread: int, rent_floor: int, s_post: int)
    ensures
        model::capped_cut(spread, rent_floor + model::liability(s_post), rent_floor, s_post) == 0,
{
}

/// Every step of the arithmetic fits 128 bits up to the largest supply, so that
/// no trade within it overflows.
pub proof fn law_arithmetic_fits_up_to_the_largest_supply(s: int, d: int)
    requires
        s >= 0,
        d >= 0,
        s + d <= MAX_SUPPLY,
    ensures
        model::area_up_fits(s, d),
        model::area_down_fits(s, d),
        model::liability_fits(s),
        model::buy_cost(s, d) <= u64::MAX,
        model::sell_refund(s, d) <= u64::MAX,
        model::liability(s) <= u64::MAX,
{
    lemmas::lemma_curve_fits(s, d);
    lemmas::lemma_buy_cost_bounds(s, d);
    lemmas::lemma_sell_refund_bounds(s, d);
    lemmas::lemma_liability_is_small(s);
}

/// The price at the largest supply is ten times the price at supply zero, to a
/// thousandth: `P(s) / P(0) = (S0 + s)^2 / S0^2`.
pub proof fn law_curve_multiplier_is_ten()
    ensures
        9990 * (S0 * S0) <= 1000 * ((S0 + MAX_SUPPLY) * (S0 + MAX_SUPPLY)) <= 10010 * (S0 * S0),
        9990 * model::price_numerator(0) <= 1000 * model::price_numerator(MAX_SUPPLY as int)
            <= 10010 * model::price_numerator(0),
{
}

/// Net lamports that `actions` bring to `party`.
pub open spec fn flow(actions: Seq<Action>, party: Party) -> int
    decreases actions.len(),
{
    if actions.len() == 0 {
        0
    } else {
        flow(actions.drop_last(), party) + match actions.last() {
            Action::Transfer { from, to, lamports } => (if to == party {
                lamports as int
            } else {
                0
            }) - (if from == party {
                lamports as int
            } else {
                0
            }),
            _ => 0,
        }
    }
}

/// Net tokens that `actions` bring to the user.
pub open spec fn token_flow(actions: Seq<Action>) -> int
    decreases actions.len(),
{
    if actions.len() == 0 {
        0
    } else {
        token_flow(actions.drop_last()) + match actions.last() {
            Action::Mint { amount } => amount as int,
            Action::Burn { amount } => -(amount as int),
            _ => 0,
        }
    }
}

proof fn lemma_flow_of_push(actions: Seq<Action>, action: Action, party: Party)
    ensures
        flow(actions.push(action), party) == flow(actions, party) + flow(seq![action], party),
        token_flow(actions.push(action)) == token_flow(actions) + token_flow(seq![action]),
{
    assert(actions.push(action).drop_last() =~= actions);
    assert(seq![action].drop_last() =~= Seq::<Action>::empty());
    assert(seq![action].last() == action);
    reveal_with_fuel(flow, 2);
    reveal_with_fuel(token_flow, 2);
}

/// The user of a buy pays exactly the cost, which the vault and the treasury
/// share, and gets exactly the amount.
pub proof fn law_buy_actions_add_up(amount: u64, cost: u64, cut: u64)
    requires
        cut <= cost,
    ensures
        flow(market::buy_actions(amount, cost, cut), Party::User) == -(cost as int),
        flow(market::buy_actions(amount, cost, cut), Party::Vault) == cost - cut,
        flow(market::buy_actions(amount, cost, cut), Party::Treasury) == cut,
        token_flow(market::buy_actions(amount, cost, cut)) == amount,
{
    let pay = Action::Transfer {
        from: Party::User,
        to: Party::Vault,
        lamports: (cost - cut) as u64,
    };
    let share = Action::Transfer { from: Party::User, to: Party::Treasury, lamports: cut };
    let mint = Action::Mint { amount };
    let paid = if cut > 0 {
        seq![pay].push(share)
    } else {
        seq![pay]
    };
    assert(market::buy_actions(amount, cost, cut) =~= paid.push(mint));
    reveal_with_fuel(flow, 2);
    reveal_with_fuel(token_flow, 2);
    assert forall|p: Party| #![auto] flow(paid.push(mint), p) == flow(paid, p) by {
        lemma_flow_of_push(paid, mint, p);
        assert(seq![mint].last() == mint && seq![mint].drop_last() =~= Seq::<Action>::empty());
    }
    lemma_flow_of_push(paid, mint, Party::User);
    assert(seq![pay].last() == pay && seq![pay].drop_last() =~= Seq::<Action>::empty());
    assert(seq![share].last() == share && seq![share].drop_last() =~= Seq::<Action>::empty());
    assert(seq![mint].last() == mint && seq![mint].drop_last() =~= Seq::<Action>::empty());
    lemma_flow_of_push(seq![pay], share, Party::User);
    lemma_flow_of_push(seq![pay], share, Party::Vault);
    lemma_flow_of_push(seq![pay], share, Party::Treasury);
}

/// The user of a sell gets exactly the refund for exactly the amount, and the
/// vault pays the refund and the cut.
pub proof fn law_sell_actions_add_up(amount: u64, refund: u64, cut: u64)
    ensures
        flow(market::sell_actions(amount, refund, cut), Party::User) == refund,
        flow(market::sell_actions(amount, refund, cut), Party::Vault) == -(refund + cut),
        flow(market::sell_actions(amount, refund, cut), Party::Treasury) == cut,
        token_flow(market::sell_actions(amount, refund, cut)) == -(amount as int),
{
    let burn = Action::Burn { amount };
    let pay = Action::Transfer { from: Party::Vault, to: Party::User, lamports: refund };
    let share = Action::Transfer { from: Party::Vault, to: Party::Treasury, lamports: cut };
    let paid = seq![burn].push(pay);
    assert(market::sell_actions(amount, refund, cut) =~= if cut > 0 {
        paid.push(share)
    } else {
        paid
    });
    reveal_with_fuel(flow, 2);
    reveal_with_fuel(token_flow, 2);
    assert(seq![burn].last() == burn && seq![burn].drop_last() =~= Seq::<Action>::empty());
    assert(seq![pay].last() == pay && seq![pay].drop_last() =~= Seq::<Action>::empty());
    assert(seq![share].last() == share && seq![share].drop_last() =~= Seq::<Action>::empty());
    lemma_flow_of_push(seq![burn], pay, Party::User);
    lemma_flow_of_push(seq![burn], pay, Party::Vault);
    lemma_flow_of_push(seq![burn], pay, Party::Treasury);
    lemma_flow_of_push(paid, share, Party::User);
    lemma_flow_of_push(paid, share, Party::Vault);
    lemma_flow_of_push(paid, share, Party::Treasury);
}

/// Nothing leaves the vault in a buy.
pub proof fn law_buy_takes_nothing_from_the_vault(amount: u64, cost: u64, cut: u64)
    ensures
        forall|i: int|
            0 <= i < market::buy_actions(amount, cost, cut).len() ==> !((
            #[trigger] market::buy_actions(amount, cost, cut)[i]) matches Action::Transfer {
                from: Party::Vault,
                ..
            }),
{
}

/// A sell burns the tokens before anything leaves the vault.
pub proof fn law_sell_burns_first(amount: u64, refund: u64, cut: u64)
    ensures
        market::sell_actions(amount, refund, cut)[0] == (Action::Burn { amount }),
        forall|i: int|
            1 <= i < market::sell_actions(amount, refund, cut).len() ==> (
            #[trigger] market::sell_actions(amount, refund, cut)[i]) matches Action::Transfer {
                from: Party::Vault,
                ..
            },
{
}

/// Whether the vault covers its rent floor and the liability.
pub open spec fn solvent(trade: Trade) -> bool {
    trade.vault_lamports >= trade.rent_floor + model::liability(trade.supply as int)
}

/// Lamports that the vault holds above its rent floor and the liability.
pub open spec fn excess(vault: int, rent_floor: u64, supply: int) -> int {
    vault - rent_floor - model::liability(supply)
}

/// A buy keeps a solvent vault solvent, and the treasury takes the spread of the
/// trade and never what the vault already held: the cut is the whole spread, or
/// nothing where the treasury cannot take it, and the excess of the vault keeps
/// what was not cut and gains one lamport of rounding at most.
pub proof fn law_buy_keeps_solvency(trade: Trade, amount: u64)
    requires
        solvent(trade),
        trade.supply + amount <= MAX_SUPPLY,
    ensures
        ({
            let s = trade.supply as int;
            let spread = model::buy_spread(s, amount as int);
            let cut = trade.buy_cut(amount);
            let vault = trade.vault_lamports + model::buy_cost(s, amount as int) - cut;
            let before = excess(trade.vault_lamports as int, trade.rent_floor, s);
            let after = excess(vault, trade.rent_floor, s + amount);
            &&& cut == trade.treasury.accepted(spread, trade.rent_min)
            &&& before + (spread - cut) <= after <= before + (spread - cut) + 1
            &&& after >= 0
        }),
{
    let (s, d) = (trade.supply as int, amount as int);
    law_buy_covers_the_liability_rise(s, d);
    lemmas::lemma_curve_fits(s, d);
    lemmas::lemma_buy_cost_bounds(s, d);
}

/// A sell keeps a solvent vault solvent, and the treasury takes the spread of the
/// trade and never what the vault already held, as in a buy.
pub proof fn law_sell_keeps_solvency(trade: Trade, amount: u64)
    requires
        solvent(trade),
        amount <= trade.supply <= MAX_SUPPLY,
    ensures
        ({
            let s_post = trade.supply - amount;
            let spread = model::sell_spread(s_post, amount as int);
            let cut = trade.sell_cut(amount);
            let vault = trade.vault_lamports - model::sell_refund(s_post, amount as int) - cut;
            let before = excess(trade.vault_lamports as int, trade.rent_floor, trade.supply as int);
            let after = excess(vault, trade.rent_floor, s_post);
            &&& cut == trade.treasury.accepted(spread, trade.rent_min)
            &&& before + (spread - cut) <= after <= before + (spread - cut) + 1
            &&& after >= 0
        }),
{
    let (s_post, d) = (trade.supply - amount, amount as int);
    law_refund_never_exceeds_the_liability_drop(s_post, d);
    lemmas::lemma_curve_fits(s_post, d);
    lemmas::lemma_sell_refund_bounds(s_post, d);
}

/// Whoever holds tokens can sell them: a solvent market never refuses a sell
/// that asks for no more than the refund.
pub proof fn law_every_holder_can_sell(trade: Trade, amount: u64, min_refund_lamports: u64)
    requires
        solvent(trade),
        1 <= amount <= trade.supply <= MAX_SUPPLY,
        min_refund_lamports <= model::sell_refund(trade.supply - amount, amount as int),
    ensures
        trade.sell_refusal(amount, min_refund_lamports) is None,
{
    let s_post = trade.supply - amount;
    law_refund_never_exceeds_the_liability_drop(s_post, amount as int);
    lemmas::lemma_curve_fits(s_post, amount as int);
    lemmas::lemma_liability_is_small(s_post);
}

/// The treasury can neither stop a trade nor change its price, whatever state
/// its account is in.
pub proof fn law_treasury_never_stops_a_trade(
    trade: Trade,
    treasury: TreasuryAccount,
    amount: u64,
    limit: u64,
)
    ensures
        (Trade { treasury, ..trade }).buy_refusal(amount, limit) == trade.buy_refusal(
            amount,
            limit,
        ),
        (Trade { treasury, ..trade }).sell_refusal(amount, limit) == trade.sell_refusal(
            amount,
            limit,
        ),
        treasury.owner != SYSTEM_PROGRAM_ID || treasury.data_len != 0 ==> {
            &&& (Trade { treasury, ..trade }).buy_cut(amount) == 0
            &&& (Trade { treasury, ..trade }).sell_cut(amount) == 0
        },
{
}

/// A quote and the settlement agree: a quote is refused exactly where a buy
/// without a limit is, and for the same reason; what it quotes is what a buy
/// charges and what a sell pays back.
pub proof fn law_quote_is_the_settlement(trade: Trade, amount: u64)
    ensures
        ({
            let quote = Quote { supply: trade.supply };
            &&& quote.refusal(amount) == trade.buy_refusal(amount, u64::MAX)
            &&& quote.refusal(amount) is None && solvent(trade) && amount <= trade.supply
                ==> trade.sell_refusal(amount, 0) is None
            &&& amount > trade.supply ==> quote.refund(amount) == 0
            &&& 1 <= amount <= trade.supply ==> quote.refund(amount) == model::sell_refund(
                trade.supply - amount,
                amount as int,
            )
        }),
{
    if amount >= 1 && trade.supply + amount <= MAX_SUPPLY {
        lemmas::lemma_curve_fits(trade.supply as int, amount as int);
        lemmas::lemma_buy_cost_bounds(trade.supply as int, amount as int);
        if amount <= trade.supply {
            let s_post = trade.supply - amount;
            lemmas::lemma_curve_fits(s_post, amount as int);
            lemmas::lemma_sell_refund_bounds(s_post, amount as int);
            if solvent(trade) {
                law_every_holder_can_sell(trade, amount, 0);
            }
        }
    }
}

/// Lamports that anyone sends to a solvent vault change no cut: the treasury gets
/// what it would have got without them.
pub proof fn law_donation_changes_no_cut(trade: Trade, donation: u64, amount: u64)
    requires
        solvent(trade),
        trade.supply <= MAX_SUPPLY,
        trade.vault_lamports + donation <= u64::MAX,
    ensures
        ({
            let richer = Trade {
                vault_lamports: (trade.vault_lamports + donation) as u64,
                ..trade
            };
            &&& trade.supply + amount <= MAX_SUPPLY ==> richer.buy_cut(amount) == trade.buy_cut(
                amount,
            )
            &&& amount <= trade.supply ==> richer.sell_cut(amount) == trade.sell_cut(amount)
        }),
{
    let richer = Trade { vault_lamports: (trade.vault_lamports + donation) as u64, ..trade };
    if trade.supply + amount <= MAX_SUPPLY {
        law_buy_keeps_solvency(trade, amount);
        law_buy_keeps_solvency(richer, amount);
    }
    if amount <= trade.supply {
        law_sell_keeps_solvency(trade, amount);
        law_sell_keeps_solvency(richer, amount);
    }
}

/// Lamports that anyone sends to the vault change no price, and a sell that was
/// refused for want of reserve goes through once they cover the missing part.
pub proof fn law_donation_changes_no_price_and_unblocks_a_sell(
    trade: Trade,
    donation: u64,
    amount: u64,
    limit: u64,
)
    requires
        trade.supply <= MAX_SUPPLY,
        trade.vault_lamports + donation <= u64::MAX,
    ensures
        ({
            let richer = Trade {
                vault_lamports: (trade.vault_lamports + donation) as u64,
                ..trade
            };
            &&& richer.buy_refusal(amount, limit) == trade.buy_refusal(amount, limit)
            &&& trade.sell_refusal(amount, limit) is None ==> richer.sell_refusal(amount, limit)
                is None
            &&& trade.sell_refusal(amount, limit) == Some(MmError::InsufficientReserve)
                && richer.vault_lamports >= model::sell_refund(
                trade.supply - amount,
                amount as int,
            ) + trade.rent_floor ==> richer.sell_refusal(amount, limit) is None
        }),
{
    if 1 <= amount <= trade.supply {
        lemmas::lemma_curve_fits(trade.supply - amount, amount as int);
    }
}

/// The price depends on the supply alone, never on the slot, the vault, the rent
/// or the treasury.
pub proof fn law_price_depends_on_the_supply_alone(a: Trade, b: Trade, amount: u64, limit: u64)
    requires
        a.supply == b.supply,
    ensures
        a.buy_refusal(amount, limit) == b.buy_refusal(amount, limit),
        a.sell_refusal(amount, limit) == Some(MmError::SlippageSell) <==> b.sell_refusal(
            amount,
            limit,
        ) == Some(MmError::SlippageSell),
{
}

} // verus!
