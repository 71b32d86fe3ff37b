//! The two rehearsals of a deployment: what is done next, and what refuses the
//! market. A rehearsal remembers what was seen so far, and stops at the first
//! failure.

use crate::audit;
use crate::audit::{
    check_authority, check_buy_event, check_buy_price, check_one_event, check_refunded,
    check_reserve, check_sell_event, check_sell_price, Failure, Observed,
};
use crate::lemmas;
use crate::logs::TradeFields;
use crate::params::MAX_SUPPLY;
use vstd::prelude::*;

verus! {

/// What the caller does next.
#[derive(Clone, Copy, Debug, PartialEq, Eq, Structural)]
pub enum Next {
    /// Send a buy, and watch it.
    Buy,
    /// Send a sell, and watch it.
    Sell,
    /// Read the vault.
    ReadReserve,
    /// The market has passed: stop.
    Passed,
}

/// A trade that was sent: how the balance moved, and the events in the log.
#[derive(Debug, PartialEq, Eq)]
pub struct Sent {
    pub trade: Observed,
    pub events: Vec<TradeFields>,
}

/// The vault as it was read.
#[derive(Clone, Copy, Debug, PartialEq, Eq, Structural)]
pub struct Reserve {
    pub vault: u64,
    pub rent_floor: u64,
    /// Supply of the mint.
    pub supply: u64,
}

impl Reserve {
    /// Whether the vault covers its floor and the liability.
    pub open spec fn covers(self) -> bool {
        audit::covered(self.vault, self.rent_floor, self.supply as int)
    }
}

/// Whether a buy lies within the curve.
pub open spec fn buy_in_range(bought: Option<Sent>) -> bool {
    bought matches Some(sent) ==> sent.trade.supply_before + sent.trade.amount <= MAX_SUPPLY
}

/// Whether a reserve was read at a supply within the curve.
pub open spec fn reserve_in_range(reserve: Option<Reserve>) -> bool {
    reserve matches Some(seen) ==> seen.supply <= MAX_SUPPLY
}

/// The rehearsal of a new market: its price, its events and its reserve.
#[derive(Debug, PartialEq, Eq)]
pub struct FirstRun {
    pub bought: Option<Sent>,
    pub sold: Option<Sent>,
    pub reserve: Option<Reserve>,
}

impl FirstRun {
    /// Whether what was seen lies within the curve.
    pub open spec fn in_range(self) -> bool {
        &&& buy_in_range(self.bought)
        &&& self.sold matches Some(sent) ==> sent.trade.amount <= sent.trade.supply_before
            <= MAX_SUPPLY
        &&& reserve_in_range(self.reserve)
    }

    /// How the buy fails: the price first, then the event.
    pub open spec fn buy_failure(self) -> Option<Failure> {
        match self.bought {
            Some(sent) => if sent.trade.buy_price_failure() is Some {
                sent.trade.buy_price_failure()
            } else {
                sent.trade.buy_event_failure(sent.events@)
            },
            None => None,
        }
    }

    /// How the sell fails: the price first, then the event.
    pub open spec fn sell_failure(self) -> Option<Failure> {
        match self.sold {
            Some(sent) => if sent.trade.sell_price_failure() is Some {
                sent.trade.sell_price_failure()
            } else {
                sent.trade.sell_event_failure(sent.events@)
            },
            None => None,
        }
    }

    /// What follows what was seen: the buy, the sell and the reserve in this
    /// order, each only after the one before has passed.
    pub open spec fn follow_up(self) -> Result<Next, Failure> {
        if self.bought is None {
            Ok(Next::Buy)
        } else if self.buy_failure() is Some {
            Err(self.buy_failure()->0)
        } else if self.sold is None {
            Ok(Next::Sell)
        } else if self.sell_failure() is Some {
            Err(self.sell_failure()->0)
        } else if self.reserve is None {
            Ok(Next::ReadReserve)
        } else if !(self.reserve->0).covers() {
            Err(Failure::Insolvent)
        } else {
            Ok(Next::Passed)
        }
    }

    /// What to do next, or the first failure.
    pub fn next(&self) -> (r: Result<Next, Failure>)
        requires
            self.in_range(),
        ensures
            r == self.follow_up(),
            r == Ok::<Next, Failure>(Next::Passed) <==> {
                &&& self.bought matches Some(sent) && sent.trade.buy_price_failure() is None
                    && sent.trade.buy_event_failure(sent.events@) is None
                &&& self.sold matches Some(sent) && sent.trade.sell_price_failure() is None
                    && sent.trade.sell_event_failure(sent.events@) is None
                &&& self.reserve matches Some(seen) && seen.covers()
            },
    {
        let bought = match &self.bought {
            Some(sent) => sent,
            None => return Ok(Next::Buy),
        };
        if let Err(e) = check_buy_price(&bought.trade) {
            return Err(e);
        }
        if let Err(e) = check_buy_event(&bought.trade, bought.events.as_slice()) {
            return Err(e);
        }
        let sold = match &self.sold {
            Some(sent) => sent,
            None => return Ok(Next::Sell),
        };
        if let Err(e) = check_sell_price(&sold.trade) {
            return Err(e);
        }
        if let Err(e) = check_sell_event(&sold.trade, sold.events.as_slice()) {
            return Err(e);
        }
        match &self.reserve {
            Some(seen) => match check_reserve(seen.vault, seen.rent_floor, seen.supply) {
                Ok(_) => Ok(Next::Passed),
                Err(e) => Err(e),
            },
            None => Ok(Next::ReadReserve),
        }
    }
}

/// The rehearsal of a market whose upgrade authority was given up: no one can
/// replace its code, and it still trades at the curve's price.
#[derive(Debug, PartialEq, Eq)]
pub struct FinalRun {
    /// The program data account, where there is one.
    pub program_data: Option<Vec<u8>>,
    pub bought: Option<Sent>,
    pub sold: Option<Observed>,
    pub reserve: Option<Reserve>,
}

impl FinalRun {
    /// Whether what was seen lies within the curve.
    pub open spec fn in_range(self) -> bool {
        &&& buy_in_range(self.bought)
        &&& reserve_in_range(self.reserve)
    }

    /// How the buy fails: the price first, then the number of events.
    pub open spec fn buy_failure(self) -> Option<Failure> {
        match self.bought {
            Some(sent) => if sent.trade.buy_price_failure() is Some {
                sent.trade.buy_price_failure()
            } else if sent.events@.len() != 1 {
                Some(Failure::WrongEventCount)
            } else {
                None
            },
            None => None,
        }
    }

    /// What follows what was seen: with an authority left nothing is sent at
    /// all; then the buy, the sell and the reserve in this order, each only after
    /// the one before has passed.
    pub open spec fn follow_up(self) -> Result<Next, Failure> {
        if audit::authority_present(self.program_data) {
            Err(Failure::AuthorityPresent)
        } else if self.bought is None {
            Ok(Next::Buy)
        } else if self.buy_failure() is Some {
            Err(self.buy_failure()->0)
        } else if self.sold is None {
            Ok(Next::Sell)
        } else if (self.sold->0).refund_failure() is Some {
            Err((self.sold->0).refund_failure()->0)
        } else if self.reserve is None {
            Ok(Next::ReadReserve)
        } else if !(self.reserve->0).covers() {
            Err(Failure::Insolvent)
        } else {
            Ok(Next::Passed)
        }
    }

    /// What to do next, or the first failure. The market passes exactly where no
    /// authority is left, the buy paid the curve's price and left one event, the
    /// sell paid something back, and the vault covers its floor and the
    /// liability.
    pub fn next(&self) -> (r: Result<Next, Failure>)
        requires
            self.in_range(),
        ensures
            r == self.follow_up(),
            r == Ok::<Next, Failure>(Next::Passed) <==> {
                &&& !audit::authority_present(self.program_data)
                &&& self.bought matches Some(sent) && sent.trade.paid()
                    == sent.trade.expected_cost() && sent.events@.len() == 1
                &&& self.sold matches Some(trade) && 0 < trade.got() <= u64::MAX
                &&& self.reserve matches Some(seen) && seen.covers()
            },
    {
        if let Err(e) = check_authority(&self.program_data) {
            return Err(e);
        }
        let bought = match &self.bought {
            Some(sent) => sent,
            None => return Ok(Next::Buy),
        };
        proof {
            let t = bought.trade;
            lemmas::lemma_curve_fits(t.supply_before as int, t.amount as int);
            lemmas::lemma_buy_cost_bounds(t.supply_before as int, t.amount as int);
        }
        if let Err(e) = check_buy_price(&bought.trade) {
            return Err(e);
        }
        if let Err(e) = check_one_event(bought.events.as_slice()) {
            return Err(e);
        }
        let sold = match &self.sold {
            Some(trade) => trade,
            None => return Ok(Next::Sell),
        };
        if let Err(e) = check_refunded(sold) {
            return Err(e);
        }
        match &self.reserve {
            Some(seen) => match check_reserve(seen.vault, seen.rent_floor, seen.supply) {
                Ok(_) => Ok(Next::Passed),
                Err(e) => Err(e),
            },
            None => Ok(Next::ReadReserve),
        }
    }
}

/// While an upgrade authority is left, a market is refused whatever else was
/// seen: the code that was checked could still be replaced.
pub proof fn law_an_authority_refuses_the_market(run: FinalRun)
    requires
        audit::authority_present(run.program_data),
    ensures
        run.follow_up() == Err::<Next, Failure>(Failure::AuthorityPresent),
{
}

} // verus!
