//! Gold, expenses and reputation.

use vstd::prelude::*;

verus! {

/// The highest reputation a merchant can have.
pub const MAX_REPUTATION: u8 = 100;

/// The reputation a merchant starts with.
pub const START_REPUTATION: u8 = 50;

/// Gold earned over the whole run, in tenths of a gold piece.
#[derive(Debug, Clone, Copy, PartialEq, Eq, Structural)]
pub struct TotalGold(pub u64);

/// Gold earned today, in tenths of a gold piece.
#[derive(Debug, Clone, Copy, PartialEq, Eq, Structural)]
pub struct DailyGold(pub u64);

/// What the goods sold over the whole run cost, in tenths of a gold piece.
#[derive(Debug, Clone, Copy, PartialEq, Eq, Structural)]
pub struct TotalExpenses(pub u64);

/// What the goods sold today cost, in tenths of a gold piece.
#[derive(Debug, Clone, Copy, PartialEq, Eq, Structural)]
pub struct DailyExpenses(pub u64);

/// The merchant's standing, from 0 to 100.
#[derive(Debug, Clone, Copy, PartialEq, Eq, Structural)]
pub struct Reputation(pub u8);

/// Reputation after a payment by a customer of weight `hit`: raised by
/// `hit`, at most 100.
pub open spec fn rep_after_payment(rep: nat, hit: nat) -> nat {
    if rep + hit > 100 {
        100
    } else {
        rep + hit
    }
}

/// Reputation after an angry customer of weight `hit`: lowered by `hit`, at
/// least 0.
pub open spec fn rep_after_anger(rep: nat, hit: nat) -> nat {
    if rep > hit {
        (rep - hit) as nat
    } else {
        0
    }
}

/// How a served customer left.
#[derive(Debug, Clone, Copy, PartialEq, Eq, Structural)]
pub enum Outcome {
    Paid,
    Angered,
}

/// Reputation after the outcomes in `events`, each with its customer's
/// weight, in order.
pub open spec fn rep_after_all(rep: nat, events: Seq<(Outcome, u8)>) -> nat
    decreases events.len(),
{
    if events.len() == 0 {
        rep
    } else {
        let r = rep_after_all(rep, events.drop_last());
        let (o, hit) = events.last();
        match o {
            Outcome::Paid => rep_after_payment(r, hit as nat),
            Outcome::Angered => rep_after_anger(r, hit as nat),
        }
    }
}

/// Whatever customers pay or storm off, a reputation that starts within
/// 0..=100 stays there.
pub proof fn lemma_reputation_bounded(rep: nat, events: Seq<(Outcome, u8)>)
    requires
        rep <= 100,
    ensures
        rep_after_all(rep, events) <= 100,
    decreases events.len(),
{
    if events.len() > 0 {
        lemma_reputation_bounded(rep, events.drop_last());
    }
}

/// The merchant's books.
#[derive(Debug, Clone, Copy, PartialEq, Eq, Structural)]
pub struct Ledger {
    pub total_gold: TotalGold,
    pub daily_gold: DailyGold,
    pub total_expenses: TotalExpenses,
    pub daily_expenses: DailyExpenses,
    pub reputation: Reputation,
}

pub open spec fn sat_add(a: u64, b: u64) -> u64 {
    if a + b > u64::MAX {
        u64::MAX
    } else {
        (a + b) as u64
    }
}

impl Ledger {
    pub open spec fn wf(&self) -> bool {
        self.reputation.0 <= MAX_REPUTATION
    }

    pub open spec fn new_spec() -> Ledger {
        Ledger {
            total_gold: TotalGold(0),
            daily_gold: DailyGold(0),
            total_expenses: TotalExpenses(0),
            daily_expenses: DailyExpenses(0),
            reputation: Reputation(START_REPUTATION),
        }
    }

    /// Empty books and the starting reputation.
    pub fn new() -> (r: Ledger)
        ensures
            r.wf(),
            r == Ledger::new_spec(),
    {
        Ledger {
            total_gold: TotalGold(0),
            daily_gold: DailyGold(0),
            total_expenses: TotalExpenses(0),
            daily_expenses: DailyExpenses(0),
            reputation: Reputation(START_REPUTATION),
        }
    }

    /// A customer paid `price` for goods that cost `expense`: both are added
    /// to today's counts (which stop at `u64::MAX`), and the reputation rises
    /// by `rep_hit`, to at most 100.
    pub fn pay(&mut self, price: u64, expense: u64, rep_hit: u8)
        requires
            old(self).wf(),
        ensures
            final(self).wf(),
            final(self).daily_gold.0 == sat_add(old(self).daily_gold.0, price),
            final(self).daily_expenses.0 == sat_add(old(self).daily_expenses.0, expense),
            final(self).reputation.0 == rep_after_payment(
                old(self).reputation.0 as nat,
                rep_hit as nat,
            ),
            final(self).total_gold == old(self).total_gold,
            final(self).total_expenses == old(self).total_expenses,
    {
        self.daily_gold = DailyGold(self.daily_gold.0.saturating_add(price));
        self.daily_expenses = DailyExpenses(self.daily_expenses.0.saturating_add(expense));
        let raised: u16 = self.reputation.0 as u16 + rep_hit as u16;
        self.reputation = Reputation(
            if raised > MAX_REPUTATION as u16 {
                MAX_REPUTATION
            } else {
                raised as u8
            },
        );
    }

    /// A customer stormed off: the reputation falls by `rep_hit`, to at
    /// least 0, and no gold changes hands.
    pub fn anger(&mut self, rep_hit: u8)
        requires
            old(self).wf(),
        ensures
            final(self).wf(),
            final(self).reputation.0 == rep_after_anger(
                old(self).reputation.0 as nat,
                rep_hit as nat,
            ),
            final(self).daily_gold == old(self).daily_gold,
            final(self).daily_expenses == old(self).daily_expenses,
            final(self).total_gold == old(self).total_gold,
            final(self).total_expenses == old(self).total_expenses,
    {
        self.reputation = Reputation(self.reputation.0.saturating_sub(rep_hit));
    }

    /// Applies one outcome of a customer of weight `rep_hit`; a payment of
    /// `price` for goods that cost `expense`.
    pub fn record(&mut self, outcome: Outcome, price: u64, expense: u64, rep_hit: u8)
        requires
            old(self).wf(),
        ensures
            final(self).wf(),
            final(self).reputation.0 == rep_after_all(
                old(self).reputation.0 as nat,
                seq![(outcome, rep_hit)],
            ),
    {
        let ghost before = self.reputation.0 as nat;
        proof {
            let e = seq![(outcome, rep_hit)];
            assert(e.drop_last() =~= Seq::<(Outcome, u8)>::empty());
            assert(rep_after_all(before, e.drop_last()) == before);
            assert(e.last() == (outcome, rep_hit));
        }
        match outcome {
            Outcome::Paid => self.pay(price, expense, rep_hit),
            Outcome::Angered => self.anger(rep_hit),
        }
    }

    /// Closes the day: today's gold and expenses go to the run's totals
    /// (which stop at `u64::MAX`) and today's counts start again at 0.
    pub fn close_day(&mut self)
        requires
            old(self).wf(),
        ensures
            final(self).wf(),
            final(self).total_gold.0 == sat_add(old(self).total_gold.0, old(self).daily_gold.0),
            final(self).total_expenses.0 == sat_add(
                old(self).total_expenses.0,
                old(self).daily_expenses.0,
            ),
            final(self).daily_gold.0 == 0,
            final(self).daily_expenses.0 == 0,
            final(self).reputation == old(self).reputation,
    {
        self.total_gold = TotalGold(self.total_gold.0.saturating_add(self.daily_gold.0));
        self.total_expenses = TotalExpenses(
            self.total_expenses.0.saturating_add(self.daily_expenses.0),
        );
        self.daily_gold = DailyGold(0);
        self.daily_expenses = DailyExpenses(0);
    }
}

} // verus!
