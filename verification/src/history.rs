//! What holds along any history of trades and calls.
//!
//! The rent of a history is fixed: what a change of it does is said apart.

use crate::laws;
use crate::lemmas;
use crate::market;
use crate::market::{Action, Initialize, MarketState, Party, Quote, Trade, TreasuryAccount};
use crate::model;
use crate::params::{DEN, MAX_SUPPLY, P0_NUM};
use vstd::prelude::*;

verus! {

/// A trade that someone sends, and the state of the treasury when it arrives.
pub struct Order {
    pub is_buy: bool,
    pub amount: u64,
    /// Most that a buy pays, least that a sell accepts.
    pub limit: u64,
    pub treasury: TreasuryAccount,
}

/// Rent as the cluster charges it.
pub struct RentRules {
    pub rent_min: u64,
    pub rent_floor: u64,
}

/// The market, and what has moved through it so far.
pub struct Ledger {
    pub supply: u64,
    pub vault: u64,
    /// Cuts paid to the treasury.
    pub cuts: int,
    /// Spreads collected from the users.
    pub spreads: int,
    /// Lamports paid by the users.
    pub paid: int,
    /// Lamports paid back to the users.
    pub refunded: int,
}

impl Ledger {
    /// What the accounts of `order` hold.
    pub open spec fn trade(self, order: Order, rent: RentRules) -> Trade {
        Trade {
            supply: self.supply,
            vault_lamports: self.vault,
            rent_min: rent.rent_min,
            rent_floor: rent.rent_floor,
            treasury: order.treasury,
            slot: 0,
        }
    }

    /// The ledger after `order`: as before where the order is refused, or where
    /// the vault cannot hold what it would be paid.
    pub open spec fn after(self, order: Order, rent: RentRules) -> Ledger {
        let t = self.trade(order, rent);
        let d = order.amount as int;
        if order.is_buy {
            let s = self.supply as int;
            let cost = model::buy_cost(s, d);
            let cut = t.buy_cut(order.amount);
            if t.buy_refusal(order.amount, order.limit) is None && self.vault + cost - cut
                <= u64::MAX {
                Ledger {
                    supply: (s + d) as u64,
                    vault: (self.vault + cost - cut) as u64,
                    cuts: self.cuts + cut,
                    spreads: self.spreads + model::buy_spread(s, d),
                    paid: self.paid + cost,
                    refunded: self.refunded,
                }
            } else {
                self
            }
        } else {
            let s_post = self.supply - d;
            let refund = model::sell_refund(s_post, d);
            let cut = t.sell_cut(order.amount);
            if t.sell_refusal(order.amount, order.limit) is None {
                Ledger {
                    supply: s_post as u64,
                    vault: (self.vault - refund - cut) as u64,
                    cuts: self.cuts + cut,
                    spreads: self.spreads + model::sell_spread(s_post, d),
                    paid: self.paid,
                    refunded: self.refunded + refund,
                }
            } else {
                self
            }
        }
    }

    /// The actions that settle `order`: none where it is refused, or where the
    /// vault cannot hold what it would be paid.
    pub open spec fn actions(self, order: Order, rent: RentRules) -> Seq<Action> {
        let t = self.trade(order, rent);
        if order.is_buy {
            let cost = model::buy_cost(self.supply as int, order.amount as int);
            let cut = t.buy_cut(order.amount);
            if t.buy_refusal(order.amount, order.limit) is None && self.vault + cost - cut
                <= u64::MAX {
                market::buy_actions(order.amount, cost as u64, cut as u64)
            } else {
                seq![]
            }
        } else {
            let refund = model::sell_refund(self.supply - order.amount, order.amount as int);
            let cut = t.sell_cut(order.amount);
            if t.sell_refusal(order.amount, order.limit) is None {
                market::sell_actions(order.amount, refund as u64, cut as u64)
            } else {
                seq![]
            }
        }
    }

    /// The ledger after all of `orders`, first to last.
    pub open spec fn after_all(self, orders: Seq<Order>, rent: RentRules) -> Ledger
        decreases orders.len(),
    {
        if orders.len() == 0 {
            self
        } else {
            self.after_all(orders.drop_last(), rent).after(orders.last(), rent)
        }
    }

    /// Lamports in the vault above its rent floor and the liability.
    pub open spec fn excess(self, rent: RentRules) -> int {
        laws::excess(self.vault as int, rent.rent_floor, self.supply as int)
    }

    /// A state that a market can be in: the supply is in range and the vault
    /// covers its rent floor and the liability.
    pub open spec fn sound(self, rent: RentRules) -> bool {
        &&& self.supply <= MAX_SUPPLY
        &&& self.excess(rent) >= 0
    }
}

/// What one order keeps.
proof fn lemma_one_order(l: Ledger, order: Order, rent: RentRules)
    requires
        l.sound(rent),
    ensures
        ({
            let m = l.after(order, rent);
            &&& m.sound(rent)
            &&& m.excess(rent) >= l.excess(rent)
            &&& 0 <= m.cuts - l.cuts <= m.spreads - l.spreads
            &&& (m.paid - l.paid) - (m.refunded - l.refunded) == (m.vault - l.vault) + (m.cuts
                - l.cuts)
            &&& ((m.paid - l.paid) - (m.refunded - l.refunded)) * DEN >= (model::n(m.supply as int)
                - model::n(l.supply as int)) * P0_NUM
        }),
{
    let t = l.trade(order, rent);
    let m = l.after(order, rent);
    let d = order.amount as int;
    let s = l.supply as int;
    if order.is_buy && t.buy_refusal(order.amount, order.limit) is None {
        lemmas::lemma_curve_fits(s, d);
        lemmas::lemma_buy_cost_bounds(s, d);
        laws::law_buy_keeps_solvency(t, order.amount);
        laws::law_area_up_is_least(s, d);
        laws::law_buy_covers_the_liability_rise(s, d);
        lemmas::lemma_liability_is_small(s + d);
        let (a, c) = (model::area_up(s, d), model::buy_cost(s, d));
        assert(a * DEN <= c * DEN) by (nonlinear_arith)
            requires
                a <= c,
        ;
        if l.vault + c - t.buy_cut(order.amount) <= u64::MAX {
            assert((m.paid - l.paid) - (m.refunded - l.refunded) == c);
        }
    } else if !order.is_buy && t.sell_refusal(order.amount, order.limit) is None {
        let s_post = s - d;
        lemmas::lemma_curve_fits(s_post, d);
        lemmas::lemma_sell_refund_bounds(s_post, d);
        laws::law_sell_keeps_solvency(t, order.amount);
        laws::law_area_down_is_greatest(s_post, d);
        lemmas::lemma_liability_is_small(s_post);
        let (a, r) = (model::area_down(s_post, d), model::sell_refund(s_post, d));
        assert((-r) * DEN >= -(a * DEN)) by (nonlinear_arith)
            requires
                r <= a,
        ;
        assert((m.paid - l.paid) - (m.refunded - l.refunded) == -r);
    }
}

/// The ledger follows the settlement: an order moves the supply, the vault, the
/// cuts and what the users paid or were paid back by exactly what the actions of
/// its settlement move. A refused order has no actions and changes nothing.
pub proof fn law_ledger_follows_the_settlement(l: Ledger, order: Order, rent: RentRules)
    requires
        l.sound(rent),
    ensures
        ({
            let m = l.after(order, rent);
            let actions = l.actions(order, rent);
            &&& m.supply == l.supply + laws::token_flow(actions)
            &&& m.vault == l.vault + laws::flow(actions, Party::Vault)
            &&& m.cuts == l.cuts + laws::flow(actions, Party::Treasury)
            &&& m.paid == l.paid + if order.is_buy {
                -laws::flow(actions, Party::User)
            } else {
                0
            }
            &&& m.refunded == l.refunded + if order.is_buy {
                0
            } else {
                laws::flow(actions, Party::User)
            }
            &&& actions.len() == 0 ==> m == l
        }),
{
    let t = l.trade(order, rent);
    let (s, d) = (l.supply as int, order.amount as int);
    lemma_one_order(l, order, rent);
    if order.is_buy && t.buy_refusal(order.amount, order.limit) is None {
        lemmas::lemma_curve_fits(s, d);
        lemmas::lemma_buy_cost_bounds(s, d);
        laws::law_buy_keeps_solvency(t, order.amount);
        laws::law_buy_actions_add_up(
            order.amount,
            model::buy_cost(s, d) as u64,
            t.buy_cut(order.amount) as u64,
        );
    } else if !order.is_buy && t.sell_refusal(order.amount, order.limit) is None {
        lemmas::lemma_curve_fits(s - d, d);
        lemmas::lemma_sell_refund_bounds(s - d, d);
        lemmas::lemma_liability_is_small(s - d);
        laws::law_sell_keeps_solvency(t, order.amount);
        laws::law_sell_actions_add_up(
            order.amount,
            model::sell_refund(s - d, d) as u64,
            t.sell_cut(order.amount) as u64,
        );
    }
}

/// Along any history, while the rent stays as it was, the supply stays in range,
/// and the vault keeps covering its rent floor and the liability: it can always
/// pay every holder. What it holds above that never falls, so lamports sent to it
/// stay in it for good.
pub proof fn law_solvency_along_any_history(l: Ledger, orders: Seq<Order>, rent: RentRules)
    requires
        l.sound(rent),
    ensures
        l.after_all(orders, rent).sound(rent),
        l.after_all(orders, rent).excess(rent) >= l.excess(rent),
    decreases orders.len(),
{
    if orders.len() > 0 {
        law_solvency_along_any_history(l, orders.drop_last(), rent);
        lemma_one_order(l.after_all(orders.drop_last(), rent), orders.last(), rent);
    }
}

/// Along any history no lamport appears or vanishes: what the users paid, less
/// what they were paid back, is what the vault and the treasury gained. The
/// treasury never gets more than the spreads.
pub proof fn law_accounts_balance_along_any_history(l: Ledger, orders: Seq<Order>, rent: RentRules)
    requires
        l.sound(rent),
    ensures
        ({
            let m = l.after_all(orders, rent);
            &&& (m.paid - l.paid) - (m.refunded - l.refunded) == (m.vault - l.vault) + (m.cuts
                - l.cuts)
            &&& 0 <= m.cuts - l.cuts <= m.spreads - l.spreads
        }),
    decreases orders.len(),
{
    if orders.len() > 0 {
        law_accounts_balance_along_any_history(l, orders.drop_last(), rent);
        law_solvency_along_any_history(l, orders.drop_last(), rent);
        lemma_one_order(l.after_all(orders.drop_last(), rent), orders.last(), rent);
    }
}

/// Along any history the users together pay at least the value of the curve
/// between the first and the last supply.
pub proof fn law_users_pay_the_curve(l: Ledger, orders: Seq<Order>, rent: RentRules)
    requires
        l.sound(rent),
    ensures
        ({
            let m = l.after_all(orders, rent);
            ((m.paid - l.paid) - (m.refunded - l.refunded)) * DEN >= (model::n(m.supply as int)
                - model::n(l.supply as int)) * P0_NUM
        }),
    decreases orders.len(),
{
    if orders.len() > 0 {
        let k = l.after_all(orders.drop_last(), rent);
        let m = l.after_all(orders, rent);
        law_users_pay_the_curve(l, orders.drop_last(), rent);
        law_solvency_along_any_history(l, orders.drop_last(), rent);
        lemma_one_order(k, orders.last(), rent);
        let x = (k.paid - l.paid) - (k.refunded - l.refunded);
        let y = (m.paid - k.paid) - (m.refunded - k.refunded);
        assert((x + y) * DEN == x * DEN + y * DEN) by (nonlinear_arith);
    }
}

/// A history that ends at the supply it began with never pays: the users got
/// back no more than they paid.
pub proof fn law_closed_cycle_never_profits(l: Ledger, orders: Seq<Order>, rent: RentRules)
    requires
        l.sound(rent),
        l.after_all(orders, rent).supply == l.supply,
    ensures
        l.after_all(orders, rent).refunded - l.refunded <= l.after_all(orders, rent).paid - l.paid,
{
    law_users_pay_the_curve(l, orders, rent);
    let m = l.after_all(orders, rent);
    lemmas::lemma_factor_order(-1, (m.paid - l.paid) - (m.refunded - l.refunded), DEN as int);
}

/// The size of all the orders together.
pub open spec fn total_amount(orders: Seq<Order>) -> int
    decreases orders.len(),
{
    if orders.len() == 0 {
        0
    } else {
        total_amount(orders.drop_last()) + orders.last().amount
    }
}

/// What buys of these sizes pay one after the other, from supply `s` up: each
/// pays the step of the curve that it finds.
pub open spec fn cost_of_steps(s: int, orders: Seq<Order>) -> int
    decreases orders.len(),
{
    if orders.len() == 0 {
        0
    } else {
        cost_of_steps(s, orders.drop_last()) + model::buy_cost(
            s + total_amount(orders.drop_last()),
            orders.last().amount as int,
        )
    }
}

/// Buys pay together the steps of the curve that they climb, to the lamport,
/// whoever sends them and whatever the treasury does.
pub proof fn law_buys_pay_the_steps(l: Ledger, orders: Seq<Order>, rent: RentRules)
    requires
        l.sound(rent),
        forall|i: int|
            0 <= i < orders.len() ==> {
                &&& (#[trigger] orders[i]).is_buy
                &&& orders[i].amount >= 1
                &&& orders[i].limit == u64::MAX
            },
        l.supply + total_amount(orders) <= MAX_SUPPLY,
        l.vault + cost_of_steps(l.supply as int, orders) <= u64::MAX,
    ensures
        l.after_all(orders, rent).paid - l.paid == cost_of_steps(l.supply as int, orders),
        l.after_all(orders, rent).supply == l.supply + total_amount(orders),
        l.after_all(orders, rent).vault <= l.vault + cost_of_steps(l.supply as int, orders),
    decreases orders.len(),
{
    if orders.len() > 0 {
        let early = orders.drop_last();
        let a = orders.last().amount;
        assert forall|i: int| 0 <= i < early.len() implies {
            &&& (#[trigger] early[i]).is_buy
            &&& early[i].amount >= 1
            &&& early[i].limit == u64::MAX
        } by {
            assert(early[i] == orders[i]);
        }
        assert(orders.last() == orders[orders.len() - 1]);
        lemma_total_is_not_negative(early);
        let s = l.supply + total_amount(early);
        lemmas::lemma_curve_fits(s, a as int);
        lemmas::lemma_buy_cost_bounds(s, a as int);
        law_buys_pay_the_steps(l, early, rent);
        law_solvency_along_any_history(l, early, rent);
        lemma_one_order(l.after_all(early, rent), orders.last(), rent);
        laws::law_buy_keeps_solvency(l.after_all(early, rent).trade(orders.last(), rent), a);
    }
}

proof fn lemma_total_is_not_negative(orders: Seq<Order>)
    ensures
        total_amount(orders) >= 0,
    decreases orders.len(),
{
    if orders.len() > 0 {
        lemma_total_is_not_negative(orders.drop_last());
    }
}

/// Two runs of buys of one size, sent by whomever and in whatever order, pay
/// together the same.
pub proof fn law_equal_buys_pay_the_same_in_any_order(
    s: int,
    orders: Seq<Order>,
    others: Seq<Order>,
    amount: u64,
)
    requires
        orders.len() == others.len(),
        forall|i: int| 0 <= i < orders.len() ==> (#[trigger] orders[i]).amount == amount,
        forall|i: int| 0 <= i < others.len() ==> (#[trigger] others[i]).amount == amount,
    ensures
        cost_of_steps(s, orders) == cost_of_steps(s, others),
        total_amount(orders) == total_amount(others),
    decreases orders.len(),
{
    if orders.len() > 0 {
        let (p, q) = (orders.drop_last(), others.drop_last());
        assert forall|i: int| 0 <= i < p.len() implies (#[trigger] p[i]).amount == amount by {
            assert(p[i] == orders[i]);
        }
        assert forall|i: int| 0 <= i < q.len() implies (#[trigger] q[i]).amount == amount by {
            assert(q[i] == others[i]);
        }
        assert(orders.last() == orders[orders.len() - 1]);
        assert(others.last() == others[others.len() - 1]);
        law_equal_buys_pay_the_same_in_any_order(s, p, q, amount);
    }
}

/// A bank run: from any sound state, and while the rent stays as it was, sells
/// that together ask for no more than the supply all go through, in any order and
/// whatever the treasury does, and leave the vault covered.
pub proof fn law_everyone_can_exit(l: Ledger, orders: Seq<Order>, rent: RentRules)
    requires
        l.sound(rent),
        forall|i: int|
            0 <= i < orders.len() ==> {
                &&& !(#[trigger] orders[i]).is_buy
                &&& orders[i].amount >= 1
                &&& orders[i].limit == 0
            },
        total_amount(orders) <= l.supply,
    ensures
        l.after_all(orders, rent).supply == l.supply - total_amount(orders),
        l.after_all(orders, rent).sound(rent),
        orders.len() > 0 ==> l.after_all(orders.drop_last(), rent).trade(
            orders.last(),
            rent,
        ).sell_refusal(orders.last().amount, 0) is None,
    decreases orders.len(),
{
    law_solvency_along_any_history(l, orders, rent);
    if orders.len() > 0 {
        let early = orders.drop_last();
        assert forall|i: int| 0 <= i < early.len() implies {
            &&& !(#[trigger] early[i]).is_buy
            &&& early[i].amount >= 1
            &&& early[i].limit == 0
        } by {
            assert(early[i] == orders[i]);
        }
        assert(orders.last() == orders[orders.len() - 1]);
        law_everyone_can_exit(l, early, rent);
        let k = l.after_all(early, rent);
        let t = k.trade(orders.last(), rent);
        let a = orders.last().amount;
        lemmas::lemma_curve_fits(k.supply - a, a as int);
        lemmas::lemma_sell_refund_bounds(k.supply - a, a as int);
        laws::law_every_holder_can_sell(t, a, 0);
    }
}

/// A market that `initialize` has just set up is sound, whatever the vault held
/// before: the seed is the floor of a vault without data.
pub proof fn law_new_market_is_sound(l: Ledger, prefunded: u64, rent: RentRules)
    requires
        rent.rent_floor == rent.rent_min,
        l.supply == 0,
        l.vault == prefunded + rent.rent_min,
    ensures
        l.sound(rent),
        l.excess(rent) == prefunded,
{
    assert(model::n(0) * P0_NUM == 0);
    lemmas::lemma_ceil_bounds(0, DEN as int);
    let v = model::liability(0);
    lemmas::lemma_factor_order(v, 1, DEN as int);
    lemmas::lemma_factor_order(-1, v, DEN as int);
}

/// A change of the rent floor moves the excess by as much and nothing else: a
/// lower floor keeps a sound market sound, and after a rise the vault lacks no
/// more than the rise, so that a donation of it makes the market sound again.
pub proof fn law_rent_rise_is_made_good_by_a_donation(
    l: Ledger,
    rent: RentRules,
    changed: RentRules,
    donation: u64,
)
    requires
        l.sound(rent),
        l.vault + donation <= u64::MAX,
    ensures
        l.excess(changed) == l.excess(rent) - (changed.rent_floor - rent.rent_floor),
        rent.rent_floor + donation >= changed.rent_floor ==> (Ledger {
            vault: (l.vault + donation) as u64,
            ..l
        }).sound(changed),
{
}

/// A call of one of the four instructions.
pub enum Call {
    Initialize(Initialize),
    Trade(Order),
    Quote { amount: u64 },
}

/// The market as it is stored: the state that `initialize` writes, which is
/// absent before, and the ledger.
pub struct Market {
    pub state: Option<MarketState>,
    pub ledger: Ledger,
}

impl Market {
    /// A market that no one has set up: nothing is in circulation, and the vault
    /// holds what anyone has sent to its address.
    pub open spec fn fresh(prefunded: u64) -> Market {
        Market {
            state: None,
            ledger: Ledger {
                supply: 0,
                vault: prefunded,
                cuts: 0,
                spreads: 0,
                paid: 0,
                refunded: 0,
            },
        }
    }

    /// Whether the call is refused. An account is created only where there is
    /// none, so a market that was set up refuses a further `initialize`; the
    /// other instructions read the state, so a market that was not refuses them.
    pub open spec fn refuses(self, call: Call, rent: RentRules) -> bool {
        match (self.state, call) {
            (None, Call::Initialize(accounts)) => {
                ||| market::initialize_refusal(accounts) is Some
                ||| self.ledger.vault + rent.rent_min > u64::MAX
            },
            (Some(_), Call::Trade(order)) => {
                let t = self.ledger.trade(order, rent);
                if order.is_buy {
                    t.buy_refusal(order.amount, order.limit) is Some
                } else {
                    t.sell_refusal(order.amount, order.limit) is Some
                }
            },
            (Some(_), Call::Quote { amount }) => (Quote { supply: self.ledger.supply }).refusal(
                amount,
            ) is Some,
            _ => true,
        }
    }

    /// The market after the call: as before where the call is refused. An
    /// `initialize` writes the state and seeds the vault, a trade moves the
    /// ledger and writes no state, a quote writes nothing.
    pub open spec fn after(self, call: Call, rent: RentRules) -> Market {
        if self.refuses(call, rent) {
            self
        } else {
            match call {
                Call::Initialize(accounts) => Market {
                    state: Some(market::initialized_state(accounts)),
                    ledger: Ledger {
                        vault: (self.ledger.vault + rent.rent_min) as u64,
                        ..self.ledger
                    },
                },
                Call::Trade(order) => Market {
                    state: self.state,
                    ledger: self.ledger.after(order, rent),
                },
                Call::Quote { .. } => self,
            }
        }
    }

    /// The market after all of `calls`, first to last.
    pub open spec fn after_all(self, calls: Seq<Call>, rent: RentRules) -> Market
        decreases calls.len(),
    {
        if calls.len() == 0 {
            self
        } else {
            self.after_all(calls.drop_last(), rent).after(calls.last(), rent)
        }
    }
}

/// A market that was set up stays as it was set up: after any calls its mint, its
/// treasury and its bumps are those that the one `initialize` wrote, and any
/// further `initialize` is refused and changes nothing.
pub proof fn law_market_is_set_up_once(
    m: Market,
    calls: Seq<Call>,
    further: Initialize,
    rent: RentRules,
)
    requires
        m.state is Some,
    ensures
        m.after_all(calls, rent).state == m.state,
        m.after_all(calls, rent).refuses(Call::Initialize(further), rent),
        m.after_all(calls, rent).after(Call::Initialize(further), rent) == m.after_all(calls, rent),
    decreases calls.len(),
{
    if calls.len() > 0 {
        law_market_is_set_up_once(m, calls.drop_last(), further, rent);
    }
}

impl Call {
    /// Whether this is an `initialize` that is not refused and writes `state`.
    pub open spec fn writes(self, state: MarketState) -> bool {
        match self {
            Call::Initialize(accounts) => {
                &&& market::initialize_refusal(accounts) is None
                &&& state == market::initialized_state(accounts)
            },
            _ => false,
        }
    }
}

/// Whatever state a market has was written by one of the calls, an `initialize`
/// that the expected deployer paid for, with a treasury that is no account of the
/// protocol.
pub proof fn law_only_the_deployer_sets_a_market_up(
    prefunded: u64,
    calls: Seq<Call>,
    rent: RentRules,
)
    ensures
        Market::fresh(prefunded).after_all(calls, rent).state matches Some(state) ==> exists|i: int|
            0 <= i < calls.len() && (#[trigger] calls[i]).writes(state),
    decreases calls.len(),
{
    if calls.len() > 0 {
        let early = calls.drop_last();
        law_only_the_deployer_sets_a_market_up(prefunded, early, rent);
        match Market::fresh(prefunded).after_all(early, rent).state {
            Some(state) => {
                let i = choose|i: int| 0 <= i < early.len() && (#[trigger] early[i]).writes(state);
                assert(calls[i].writes(state));
            },
            None => {
                assert(calls.last() == calls[calls.len() - 1]);
            },
        }
    }
}

/// From its first day on a market that is set up is sound, whatever is called and
/// whatever its vault held before: the vault has no data, so that its floor is
/// the seed.
pub proof fn law_market_is_sound_once_set_up(prefunded: u64, calls: Seq<Call>, rent: RentRules)
    requires
        rent.rent_floor == rent.rent_min,
    ensures
        ({
            let m = Market::fresh(prefunded).after_all(calls, rent);
            &&& m.state is Some ==> m.ledger.sound(rent)
            &&& m.state is None ==> m == Market::fresh(prefunded)
        }),
    decreases calls.len(),
{
    if calls.len() > 0 {
        let before = Market::fresh(prefunded).after_all(calls.drop_last(), rent);
        law_market_is_sound_once_set_up(prefunded, calls.drop_last(), rent);
        match calls.last() {
            Call::Initialize(_) => {
                let m = before.after(calls.last(), rent);
                if before.state is None && m.state is Some {
                    law_new_market_is_sound(m.ledger, prefunded, rent);
                }
            },
            Call::Trade(order) => {
                if before.state is Some {
                    lemma_one_order(before.ledger, order, rent);
                }
            },
            Call::Quote { .. } => {},
        }
    }
}

} // verus!
