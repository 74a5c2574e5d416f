//! One shop counter: the customer being served, the scale, the books, and
//! the clocks that move them along.

use vstd::prelude::*;

use crate::attention::{Attention, AttentionState};
use crate::chance::{random_in, random_ratio};
use crate::customer::{
    after_advance,
    available_spec,
    judge,
    judgement,
    next_on_advance,
    Archetype,
    AvailableCustomers,
    Characters,
    CustomerState,
};
use crate::goods::{ItemType, Portion, TargetWeight, portion_mass};
use crate::ledger::{
    DailyExpenses,
    DailyGold,
    Ledger,
    Reputation,
    rep_after_anger,
    rep_after_payment,
    sat_add,
};
use crate::scales::{Placement, Scale, ScaleContents, ScaleWeights, WeightId, WEIGHT_COUNT, placement_of};

verus! {

/// How long after opening the first customer arrives, in ms.
pub const FIRST_ARRIVAL_MS: u64 = 5000;

/// The shortest and longest wait for the next customer, in ms.
pub const ARRIVAL_MIN_MS: u64 = 3000;

pub const ARRIVAL_MAX_MS: u64 = 10000;

/// The shortest and longest time a customer thinks before judging, in ms.
pub const THINK_MIN_MS: u64 = 1000;

pub const THINK_MAX_MS: u64 = 3000;

/// The length of a working day, in ms.
pub const DAY_LEN_MS: u64 = 90000;

pub open spec fn sat_sub(a: u64, b: u64) -> u64 {
    if a > b {
        (a - b) as u64
    } else {
        0
    }
}

/// The books after a verdict by a customer of weight `hit`, for goods sold
/// at `price` that cost `expense`: a payment adds both to today's counts and
/// raises the reputation, anger lowers it, anything else leaves the books.
pub open spec fn settled(
    l: Ledger,
    verdict: CustomerState,
    price: u64,
    expense: u64,
    hit: u8,
) -> Ledger {
    match verdict {
        CustomerState::Payment => Ledger {
            daily_gold: DailyGold(sat_add(l.daily_gold.0, price)),
            daily_expenses: DailyExpenses(sat_add(l.daily_expenses.0, expense)),
            reputation: Reputation(rep_after_payment(l.reputation.0 as nat, hit as nat) as u8),
            ..l
        },
        CustomerState::Angry => Ledger {
            reputation: Reputation(rep_after_anger(l.reputation.0 as nat, hit as nat) as u8),
            ..l
        },
        _ => l,
    }
}

/// The random outcomes a step may use; each is used only where the step
/// needs it.
#[derive(Debug, Clone, Copy, PartialEq, Eq, Structural)]
pub struct Roll {
    /// Index into the kinds of customer available, for an arrival.
    pub customer: usize,
    /// Index into the current customer's requests, when they ask.
    pub request: usize,
    /// The attention draw, when one decides.
    pub flip: bool,
    /// How long the customer thinks, when they start to.
    pub think_ms: u64,
    /// How long until the next customer, when one leaves.
    pub wait_ms: u64,
}

/// Everything the counter keeps between two inputs: who is being served
/// and how far, the scale, the books and the clocks.
#[derive(Debug)]
pub struct Shop {
    pub characters: Characters,
    /// The kind of the customer being served, if any.
    pub customer: Option<Archetype>,
    pub state: CustomerState,
    pub attention: Attention,
    pub scale: Scale,
    pub target: TargetWeight,
    pub ledger: Ledger,
    /// Time left before the customer in review gives a verdict, in ms.
    pub review_ms: u64,
    /// Time left before the next customer arrives, in ms.
    pub arrival_ms: u64,
    /// Time left in the working day, in ms.
    pub day_ms: u64,
    /// How many days have been closed.
    pub day: u64,
}

impl Roll {
    /// The indices fit what `shop` can choose from.
    pub open spec fn fits(&self, shop: &Shop) -> bool {
        &&& self.customer < available_spec(shop.ledger.reputation.0).len()
        &&& (shop.customer matches Some(a) ==> self.request
            < shop.characters.traits(a).request@.len())
    }

    /// Draws every outcome that `shop` may use in its next step: indices
    /// uniformly, times uniformly in their ranges, and the attention draw
    /// with the current customer's odds for their state.
    pub fn draw(shop: &Shop) -> (r: Roll)
        requires
            shop.wf(),
        ensures
            r.fits(shop),
            THINK_MIN_MS <= r.think_ms <= THINK_MAX_MS,
            ARRIVAL_MIN_MS <= r.wait_ms <= ARRIVAL_MAX_MS,
            shop.customer is None ==> !r.flip && r.request == 0,
            shop.customer matches Some(a) ==> {
                let odds = shop.characters.traits(a).attention_type.odds_spec(
                    shop.attention.state,
                );
                &&& odds.0 == 0 ==> !r.flip
                &&& odds.0 == odds.1 ==> r.flip
            },
    {
        let available = AvailableCustomers::for_reputation(shop.ledger.reputation.0);
        let customer = random_in(0, (available.archetypes.len() - 1) as u64) as usize;
        let (request, flip) = match shop.customer {
            Some(a) => {
                let traits = shop.characters.get(a);
                let request = random_in(0, (traits.request.len() - 1) as u64) as usize;
                let odds = traits.attention_type.weights(shop.attention.state);
                (request, random_ratio(odds.0, odds.1))
            },
            None => (0, false),
        };
        Roll {
            customer,
            request,
            flip,
            think_ms: random_in(THINK_MIN_MS, THINK_MAX_MS),
            wait_ms: random_in(ARRIVAL_MIN_MS, ARRIVAL_MAX_MS),
        }
    }
}

impl Shop {
    pub open spec fn wf(&self) -> bool {
        &&& self.characters.wf()
        &&& self.scale.wf()
        &&& self.ledger.wf()
        &&& self.attention.wf()
        &&& (self.customer is None <==> self.state == CustomerState::End)
        &&& self.scale.weights.right == self.target.masses.total_spec()
    }

    /// The weight of the current customer's verdicts on the reputation.
    pub open spec fn rep_hit_spec(&self) -> u8 {
        match self.customer {
            Some(a) => self.characters.traits(a).rep_hit,
            None => 0,
        }
    }

    /// Scale input counts: nobody is thinking over the goods.
    pub open spec fn accepts_input(&self) -> bool {
        self.state != CustomerState::Review
    }

    /// A counterfeit weight put on the scale now would be seen: a customer
    /// is there, watching, and not angry yet.
    pub open spec fn watching(&self) -> bool {
        &&& self.customer is Some
        &&& self.attention.state == AttentionState::Attentive
        &&& self.state != CustomerState::Angry
    }

    /// The books after `verdict` on the goods now on the scale.
    pub open spec fn settled_by(&self, verdict: CustomerState) -> Ledger {
        settled(
            self.ledger,
            verdict,
            (2 * self.target.masses.cost_spec()) as u64,
            self.scale.contents.masses.cost_spec() as u64,
            self.rep_hit_spec(),
        )
    }

    /// The verdict the current customer would give now.
    pub open spec fn verdict(&self) -> CustomerState {
        judgement(
            self.scale.contents.masses,
            self.target.masses,
            self.scale.weights,
            self.scale.sus,
            self.characters.traits(self.customer->0).attention_type.threshold,
        )
    }

    /// Opens the first day: nobody in the shop, empty scale and books, the
    /// first customer due in `FIRST_ARRIVAL_MS`.
    pub fn new(characters: Characters) -> (r: Shop)
        requires
            characters.wf(),
        ensures
            r.wf(),
            r.characters == characters,
            r.customer is None,
            r.state == CustomerState::End,
            r.ledger == Ledger::new_spec(),
            r.target.masses.total_spec() == 0,
            r.scale.weights.left == 0,
            !r.scale.sus,
            r.arrival_ms == FIRST_ARRIVAL_MS,
            r.day_ms == DAY_LEN_MS,
            r.day == 0,
    {
        Shop {
            characters,
            customer: None,
            state: CustomerState::End,
            attention: Attention::new(),
            scale: Scale::new(),
            target: TargetWeight::none(),
            ledger: Ledger::new(),
            review_ms: 0,
            arrival_ms: FIRST_ARRIVAL_MS,
            day_ms: DAY_LEN_MS,
            day: 0,
        }
    }

    /// The working day is over and the last customer has left.
    pub fn day_over(&self) -> (r: bool)
        ensures
            r == (self.day_ms == 0 && self.customer is None),
    {
        self.day_ms == 0 && self.customer.is_none()
    }

    /// Lets `elapsed` ms pass. The day clock runs down. With nobody in the
    /// shop, the arrival clock runs down, and when it is out while the day
    /// still runs, a customer of kind `available[roll.customer]` arrives,
    /// attentive. With a customer, their attention moves on with draw
    /// `roll.flip`, and a customer in review whose thinking time is out
    /// gives their verdict, which settles the books.
    pub fn tick(&mut self, elapsed: u64, roll: Roll)
        requires
            old(self).wf(),
            roll.fits(&*old(self)),
        ensures
            final(self).wf(),
            final(self).day_ms == sat_sub(old(self).day_ms, elapsed),
            old(self).customer is None ==> {
                let arrival = sat_sub(old(self).arrival_ms, elapsed);
                let arrives = arrival == 0 && final(self).day_ms > 0;
                &&& arrives ==> *final(self) == (Shop {
                    customer: Some(available_spec(old(self).ledger.reputation.0)[roll.customer as int]),
                    state: CustomerState::Approach,
                    attention: Attention {
                        state: AttentionState::Attentive,
                        will_change: false,
                        delay_ms: 0,
                        lockout_ms: 0,
                    },
                    arrival_ms: 0,
                    day_ms: final(self).day_ms,
                    ..*old(self)
                })
                &&& !arrives ==> *final(self) == (Shop {
                    arrival_ms: arrival,
                    day_ms: final(self).day_ms,
                    ..*old(self)
                })
            },
            old(self).customer is Some ==> {
                let attention = old(self).attention.stepped(elapsed, roll.flip);
                &&& (old(self).state == CustomerState::Review && old(self).review_ms <= elapsed)
                    ==> *final(self) == (Shop {
                    attention,
                    state: old(self).verdict(),
                    ledger: old(self).settled_by(old(self).verdict()),
                    review_ms: 0,
                    day_ms: final(self).day_ms,
                    ..*old(self)
                })
                &&& (old(self).state == CustomerState::Review && old(self).review_ms > elapsed)
                    ==> *final(self) == (Shop {
                    attention,
                    review_ms: (old(self).review_ms - elapsed) as u64,
                    day_ms: final(self).day_ms,
                    ..*old(self)
                })
                &&& old(self).state != CustomerState::Review ==> *final(self) == (Shop {
                    attention,
                    day_ms: final(self).day_ms,
                    ..*old(self)
                })
            },
    {
        self.day_ms = if self.day_ms > elapsed {
            self.day_ms - elapsed
        } else {
            0
        };
        match self.customer {
            None => {
                self.arrival_ms = if self.arrival_ms > elapsed {
                    self.arrival_ms - elapsed
                } else {
                    0
                };
                if self.arrival_ms == 0 && self.day_ms > 0 {
                    let available = AvailableCustomers::for_reputation(self.ledger.reputation.0);
                    self.customer = Some(available.archetypes[roll.customer]);
                    self.state = CustomerState::Approach;
                    self.attention = Attention::new();
                }
            },
            Some(a) => {
                self.attention.step(elapsed, roll.flip);
                if self.state == CustomerState::Review {
                    if self.review_ms > elapsed {
                        self.review_ms = self.review_ms - elapsed;
                    } else {
                        self.review_ms = 0;
                        let kind = self.characters.get(a).attention_type;
                        let verdict = judge(
                            &self.scale.contents,
                            &self.target,
                            &self.scale.weights,
                            self.scale.sus,
                            &kind,
                        );
                        self.give_verdict(verdict);
                    }
                }
            },
        }
    }

    /// The customer has walked up to the counter and greets the merchant.
    pub fn arrived(&mut self)
        requires
            old(self).wf(),
        ensures
            final(self).wf(),
            old(self).state == CustomerState::Approach ==> *final(self) == (Shop {
                state: CustomerState::Greeting,
                ..*old(self)
            }),
            old(self).state != CustomerState::Approach ==> *final(self) == *old(self),
    {
        if self.state == CustomerState::Approach {
            self.state = CustomerState::Greeting;
        }
    }

    /// The "advance" signal. From Greeting the customer asks for request
    /// `roll.request` of their kind, which becomes the target and sets the
    /// right pan; from Request and Reject the player measures; from
    /// Measuring, with goods on the scale, the customer thinks for
    /// `roll.think_ms`; from Payment and Angry the customer leaves and the
    /// next is due in `roll.wait_ms`. Anywhere else it is ignored.
    pub fn advance(&mut self, roll: Roll)
        requires
            old(self).wf(),
            roll.fits(&*old(self)),
        ensures
            final(self).wf(),
            ({
                let next = after_advance(
                    old(self).state,
                    old(self).scale.contents.masses.total_spec(),
                );
                &&& next is None ==> *final(self) == *old(self)
                &&& next == Some(CustomerState::Request) ==> {
                    let req = old(self).characters.traits(
                        old(self).customer->0,
                    ).request@[roll.request as int];
                    *final(self) == (Shop {
                        state: CustomerState::Request,
                        target: TargetWeight { masses: req.masses },
                        scale: Scale {
                            weights: ScaleWeights {
                                right: req.masses.total_spec() as u64,
                                ..old(self).scale.weights
                            },
                            ..old(self).scale
                        },
                        ..*old(self)
                    })
                }
                &&& next == Some(CustomerState::Measuring) ==> *final(self) == (Shop {
                    state: CustomerState::Measuring,
                    ..*old(self)
                })
                &&& next == Some(CustomerState::Review) ==> *final(self) == (Shop {
                    state: CustomerState::Review,
                    review_ms: roll.think_ms,
                    ..*old(self)
                })
                &&& next == Some(CustomerState::End) ==> {
                    &&& final(self).customer is None
                    &&& final(self).target.masses.total_spec() == 0
                    &&& forall|t: ItemType| final(self).scale.contents.masses.mass(t) == 0
                    &&& forall|i: int|
                        0 <= i < WEIGHT_COUNT ==> final(self).scale.slots@[i] == Placement::OnTable
                    &&& final(self).scale.weights == (ScaleWeights { left: 0, right: 0 })
                    &&& !final(self).scale.sus
                    &&& *final(self) == (Shop {
                        state: CustomerState::End,
                        customer: None,
                        scale: final(self).scale,
                        target: final(self).target,
                        review_ms: 0,
                        arrival_ms: roll.wait_ms,
                        ..*old(self)
                    })
                }
            }),
    {
        let next = next_on_advance(self.state, self.scale.contents.masses.total());
        match next {
            Some(CustomerState::Request) => {
                let req = self.characters.get(self.customer.unwrap()).pick_request(roll.request);
                self.target = TargetWeight::from_request(&req);
                self.scale.set_right(req.masses.total());
                self.state = CustomerState::Request;
            },
            Some(CustomerState::Review) => {
                self.review_ms = roll.think_ms;
                self.state = CustomerState::Review;
            },
            Some(CustomerState::End) => {
                self.leave(roll.wait_ms);
            },
            Some(s) => {
                self.state = s;
            },
            None => {},
        }
    }

    /// The submit bell: advances from Measuring when goods are on the
    /// scale, and is ignored anywhere else.
    pub fn submit(&mut self, roll: Roll)
        requires
            old(self).wf(),
            roll.fits(&*old(self)),
        ensures
            final(self).wf(),
            (old(self).state == CustomerState::Measuring && old(self).scale.contents.masses.total_spec()
                > 0) ==> *final(self) == (Shop {
                state: CustomerState::Review,
                review_ms: roll.think_ms,
                ..*old(self)
            }),
            !(old(self).state == CustomerState::Measuring
                && old(self).scale.contents.masses.total_spec() > 0) ==> *final(self) == *old(
                self,
            ),
    {
        if self.state == CustomerState::Measuring && self.scale.contents.masses.total() > 0 {
            self.advance(roll);
        }
    }

    /// Puts weight `id` on the scale (its twin leaves it), unless the
    /// customer is thinking. A counterfeit weight put on under the eyes of
    /// an attentive customer makes them angry at once.
    pub fn add_weight(&mut self, id: WeightId)
        requires
            old(self).wf(),
        ensures
            final(self).wf(),
            !old(self).accepts_input() ==> *final(self) == *old(self),
            old(self).accepts_input() ==> {
                let moved = id.slot < WEIGHT_COUNT && old(self).scale.slots@[id.slot as int]
                    != placement_of(id);
                let caught = moved && id.counterfeit && old(self).watching();
                &&& moved ==> final(self).scale.slots@ == old(self).scale.slots@.update(
                    id.slot as int,
                    placement_of(id),
                )
                &&& !moved ==> final(self).scale == old(self).scale
                &&& final(self).scale.contents == old(self).scale.contents
                &&& final(self).scale.weights.right == old(self).scale.weights.right
                &&& caught ==> *final(self) == (Shop {
                    scale: final(self).scale,
                    state: CustomerState::Angry,
                    ledger: old(self).settled_by(CustomerState::Angry),
                    ..*old(self)
                })
                &&& !caught ==> *final(self) == (Shop { scale: final(self).scale, ..*old(self) })
            },
    {
        if self.state == CustomerState::Review {
            return;
        }
        let moved = self.scale.add_weight(id);
        if moved && id.counterfeit && self.customer.is_some() && self.attention.state
            == AttentionState::Attentive && self.state != CustomerState::Angry {
            self.give_verdict(CustomerState::Angry);
        }
    }

    /// Takes weight `id` off the scale, unless the customer is thinking.
    pub fn remove_weight(&mut self, id: WeightId)
        requires
            old(self).wf(),
        ensures
            final(self).wf(),
            !old(self).accepts_input() ==> *final(self) == *old(self),
            old(self).accepts_input() ==> {
                let moved = id.slot < WEIGHT_COUNT && old(self).scale.slots@[id.slot as int]
                    == placement_of(id);
                &&& moved ==> final(self).scale.slots@ == old(self).scale.slots@.update(
                    id.slot as int,
                    Placement::OnTable,
                )
                &&& !moved ==> final(self).scale == old(self).scale
                &&& final(self).scale.contents == old(self).scale.contents
                &&& final(self).scale.weights.right == old(self).scale.weights.right
                &&& *final(self) == (Shop { scale: final(self).scale, ..*old(self) })
            },
    {
        if self.state == CustomerState::Review {
            return;
        }
        self.scale.remove_weight(id);
    }

    /// Adds a portion of `t` to its pile, unless the customer is thinking
    /// or the pile cannot grow any more (`u32::MAX` decigrams).
    pub fn add_item(&mut self, t: ItemType, portion: Portion)
        requires
            old(self).wf(),
        ensures
            final(self).wf(),
            ({
                let m = old(self).scale.contents.masses.mass(t) + portion_mass(portion);
                if old(self).accepts_input() && m <= u32::MAX {
                    *final(self) == (Shop {
                        scale: Scale {
                            contents: ScaleContents {
                                masses: old(self).scale.contents.masses.with_mass(t, m as u32),
                            },
                            ..old(self).scale
                        },
                        ..*old(self)
                    })
                } else {
                    *final(self) == *old(self)
                }
            }),
    {
        if self.state == CustomerState::Review {
            return;
        }
        let m = self.scale.contents.masses.get(t);
        if m > u32::MAX - portion.mass() {
            return;
        }
        self.scale.add_item(t, portion);
    }

    /// Takes a portion of `t` from its pile, unless the customer is
    /// thinking; a pile that would go to zero or below is gone.
    pub fn remove_item(&mut self, t: ItemType, portion: Portion)
        requires
            old(self).wf(),
        ensures
            final(self).wf(),
            ({
                let m = old(self).scale.contents.masses.mass(t);
                let rest = if m > portion_mass(portion) {
                    (m - portion_mass(portion)) as u32
                } else {
                    0
                };
                if old(self).accepts_input() {
                    *final(self) == (Shop {
                        scale: Scale {
                            contents: ScaleContents {
                                masses: old(self).scale.contents.masses.with_mass(t, rest),
                            },
                            ..old(self).scale
                        },
                        ..*old(self)
                    })
                } else {
                    *final(self) == *old(self)
                }
            }),
    {
        if self.state == CustomerState::Review {
            return;
        }
        self.scale.remove_item(t, portion);
    }

    /// Closes a finished day and opens the next: the day's gold and expenses
    /// go to the totals, the day clock starts again and the first customer
    /// is due in `wait_ms`.
    pub fn next_day(&mut self, wait_ms: u64)
        requires
            old(self).wf(),
            old(self).day_ms == 0,
            old(self).customer is None,
        ensures
            final(self).wf(),
            final(self).ledger.total_gold.0 == sat_add(
                old(self).ledger.total_gold.0,
                old(self).ledger.daily_gold.0,
            ),
            final(self).ledger.total_expenses.0 == sat_add(
                old(self).ledger.total_expenses.0,
                old(self).ledger.daily_expenses.0,
            ),
            final(self).ledger.daily_gold.0 == 0,
            final(self).ledger.daily_expenses.0 == 0,
            final(self).ledger.reputation == old(self).ledger.reputation,
            *final(self) == (Shop {
                ledger: final(self).ledger,
                day: if old(self).day < u64::MAX {
                    (old(self).day + 1) as u64
                } else {
                    u64::MAX
                },
                day_ms: DAY_LEN_MS,
                arrival_ms: wait_ms,
                ..*old(self)
            }),
    {
        self.ledger.close_day();
        self.day = self.day.saturating_add(1);
        self.day_ms = DAY_LEN_MS;
        self.arrival_ms = wait_ms;
    }

    /// The weight of the current customer's verdicts on the reputation.
    fn rep_hit(&self) -> (r: u8)
        ensures
            r == self.rep_hit_spec(),
    {
        match self.customer {
            Some(a) => self.characters.get(a).rep_hit,
            None => 0,
        }
    }

    /// Moves to `verdict` and settles the books for it.
    fn give_verdict(&mut self, verdict: CustomerState)
        requires
            old(self).wf(),
            old(self).customer is Some,
            verdict != CustomerState::End,
        ensures
            final(self).wf(),
            *final(self) == (Shop {
                state: verdict,
                ledger: old(self).settled_by(verdict),
                ..*old(self)
            }),
    {
        let hit = self.rep_hit();
        if verdict == CustomerState::Payment {
            let price = self.target.masses.customer_cost();
            let expense = self.scale.contents.masses.cost();
            self.ledger.pay(price, expense, hit);
        } else if verdict == CustomerState::Angry {
            self.ledger.anger(hit);
        }
        self.state = verdict;
    }

    /// The customer leaves: the scale and the request are cleared and the
    /// next customer is due in `wait_ms`.
    fn leave(&mut self, wait_ms: u64)
        requires
            old(self).wf(),
        ensures
            final(self).wf(),
            final(self).state == CustomerState::End,
            final(self).customer is None,
            final(self).target.masses.total_spec() == 0,
            forall|t: ItemType| final(self).scale.contents.masses.mass(t) == 0,
            forall|i: int|
                0 <= i < WEIGHT_COUNT ==> final(self).scale.slots@[i] == Placement::OnTable,
            final(self).scale.weights == (ScaleWeights { left: 0, right: 0 }),
            !final(self).scale.sus,
            *final(self) == (Shop {
                state: CustomerState::End,
                customer: None,
                scale: final(self).scale,
                target: final(self).target,
                review_ms: 0,
                arrival_ms: wait_ms,
                ..*old(self)
            }),
    {
        self.scale.reset();
        self.target = TargetWeight::none();
        self.customer = None;
        self.state = CustomerState::End;
        self.review_ms = 0;
        self.arrival_ms = wait_ms;
    }
}

} // verus!
