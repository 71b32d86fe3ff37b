//! Asking a slow service again and again, for a limited number of times.

use vstd::prelude::*;

verus! {

/// How often a client asks whether an airdrop is confirmed.
pub const AIRDROP_ATTEMPTS: u32 = 60;

/// How often a client asks for a confirmed transaction.
pub const TRANSACTION_ATTEMPTS: u32 = 40;

/// How long a client waits between two attempts, in milliseconds.
pub const WAIT_MILLIS: u64 = 300;

/// What the caller does next.
#[derive(Clone, Copy, Debug, PartialEq, Eq, Structural)]
pub enum Step {
    /// Ask the service.
    Ask,
    /// Wait a moment.
    Wait,
    /// The service has answered: stop.
    Done,
    /// The attempts are used up: stop.
    GiveUp,
}

/// What the caller has just done.
#[derive(Clone, Copy, Debug, PartialEq, Eq, Structural)]
pub enum Outcome {
    /// Nothing yet.
    Started,
    /// Asked, and the service has answered.
    Answered,
    /// Asked, and the service has not answered.
    Silent,
    /// Waited.
    Waited,
}

/// How often the service may still be asked.
#[derive(Clone, Copy, Debug, PartialEq, Eq, Structural)]
pub struct Polling {
    pub attempts_left: u32,
}

impl Polling {
    /// The attempts left after `outcome`: a silent service costs one.
    pub open spec fn after(self, outcome: Outcome) -> Polling {
        if outcome == Outcome::Silent && self.attempts_left > 0 {
            Polling { attempts_left: (self.attempts_left - 1) as u32 }
        } else {
            self
        }
    }

    /// What follows `outcome`.
    pub open spec fn step(self, outcome: Outcome) -> Step {
        match outcome {
            Outcome::Answered => Step::Done,
            Outcome::Silent => Step::Wait,
            Outcome::Started | Outcome::Waited => if self.attempts_left > 0 {
                Step::Ask
            } else {
                Step::GiveUp
            },
        }
    }

    /// Takes note of what the caller has done, and says what to do next.
    pub fn advance(&mut self, outcome: Outcome) -> (r: Step)
        ensures
            *final(self) == old(self).after(outcome),
            r == old(self).step(outcome),
    {
        match outcome {
            Outcome::Answered => Step::Done,
            Outcome::Silent => {
                if self.attempts_left > 0 {
                    self.attempts_left = self.attempts_left - 1;
                }
                Step::Wait
            },
            Outcome::Started | Outcome::Waited => {
                if self.attempts_left > 0 {
                    Step::Ask
                } else {
                    Step::GiveUp
                }
            },
        }
    }

    /// The attempts left after `rounds` rounds of asking in vain and waiting.
    pub open spec fn after_rounds(self, rounds: nat) -> Polling
        decreases rounds,
    {
        if rounds == 0 {
            self
        } else {
            self.after_rounds((rounds - 1) as nat).after(Outcome::Silent).after(Outcome::Waited)
        }
    }
}

/// A service that stays silent is asked as often as there are attempts, and not
/// once more.
pub proof fn law_gives_up_after_all_attempts(start: Polling, rounds: nat)
    requires
        rounds <= start.attempts_left,
    ensures
        start.after_rounds(rounds).attempts_left == start.attempts_left - rounds,
        start.after_rounds(rounds).step(Outcome::Waited) == (if rounds < start.attempts_left {
            Step::Ask
        } else {
            Step::GiveUp
        }),
    decreases rounds,
{
    if rounds > 0 {
        law_gives_up_after_all_attempts(start, (rounds - 1) as nat);
    }
}

} // verus!
