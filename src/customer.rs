//! Customers: who they are, the steps of serving one, and how they judge
//! what is on the scale.

use vstd::prelude::*;

use crate::attention::AttentionType;
use crate::chance::random_in;
use crate::goods::{ItemMasses, ItemRequest, TargetWeight};
use crate::scales::{ScaleContents, ScaleWeights};

verus! {

/// The steps of serving one customer; `End` is both where it starts and
/// where it stops.
#[derive(Debug, Clone, Copy, PartialEq, Eq, Structural, Hash)]
pub enum CustomerState {
    Approach,
    Greeting,
    Request,
    Measuring,
    Review,
    Reject,
    Angry,
    Payment,
    End,
}

/// Where the "advance" signal leads from `state`, given the total mass of
/// the goods on the scale; `None` where it is ignored. Measuring ends only
/// with goods on the scale.
pub open spec fn after_advance(state: CustomerState, contents_total: nat) -> Option<
    CustomerState,
> {
    match state {
        CustomerState::Greeting => Some(CustomerState::Request),
        CustomerState::Request => Some(CustomerState::Measuring),
        CustomerState::Measuring => if contents_total > 0 {
            Some(CustomerState::Review)
        } else {
            None
        },
        CustomerState::Reject => Some(CustomerState::Measuring),
        CustomerState::Payment => Some(CustomerState::End),
        CustomerState::Angry => Some(CustomerState::End),
        _ => None,
    }
}

/// The next state on "advance", if any.
pub fn next_on_advance(state: CustomerState, contents_total: u64) -> (r: Option<CustomerState>)
    ensures
        r == after_advance(state, contents_total as nat),
{
    match state {
        CustomerState::Greeting => Some(CustomerState::Request),
        CustomerState::Request => Some(CustomerState::Measuring),
        CustomerState::Measuring => if contents_total > 0 {
            Some(CustomerState::Review)
        } else {
            None
        },
        CustomerState::Reject => Some(CustomerState::Measuring),
        CustomerState::Payment => Some(CustomerState::End),
        CustomerState::Angry => Some(CustomerState::End),
        _ => None,
    }
}

/// The verdict on what the player delivered. The customer is angry when the
/// totals are further apart than `threshold` thousandths of the request, or
/// differ at all with no counterfeit weight on the scale; pays when the pans
/// balance and every item has its requested share; else sends the player
/// back to the scale.
pub open spec fn judgement(
    contents: ItemMasses,
    target: ItemMasses,
    weights: ScaleWeights,
    sus: bool,
    threshold: u32,
) -> CustomerState {
    if target.diff_exceeds_spec(contents, threshold) || (target.total_spec()
        != contents.total_spec() && !sus) {
        CustomerState::Angry
    } else if weights.left == weights.right && target.same_ratios_spec(contents) {
        CustomerState::Payment
    } else {
        CustomerState::Reject
    }
}

/// Judges the goods on the scale against the request.
pub fn judge(
    contents: &ScaleContents,
    target: &TargetWeight,
    weights: &ScaleWeights,
    sus: bool,
    kind: &AttentionType,
) -> (r: CustomerState)
    ensures
        r == judgement(contents.masses, target.masses, *weights, sus, kind.threshold),
{
    if target.masses.diff_exceeds(&contents.masses, kind.sus_threshold()) || (
    target.masses.total() != contents.masses.total() && !sus) {
        CustomerState::Angry
    } else if weights.is_even() && target.masses.same_ratios(&contents.masses) {
        CustomerState::Payment
    } else {
        CustomerState::Reject
    }
}

/// Goods in the requested total and proportions, on a balanced scale, are
/// paid for, whatever the threshold and whether or not a counterfeit weight
/// is on the scale.
pub proof fn lemma_exact_delivery_is_paid(
    contents: ItemMasses,
    target: ItemMasses,
    weights: ScaleWeights,
    sus: bool,
    threshold: u32,
)
    requires
        contents.total_spec() == target.total_spec(),
        contents.same_ratios_spec(target),
        weights.left == weights.right,
    ensures
        judgement(contents, target, weights, sus, threshold) == CustomerState::Payment,
{
    assert(target.same_ratios_spec(contents)) by {
        assert forall|t| #[trigger]
            target.mass(t) * contents.total_spec() == contents.mass(t) * target.total_spec() by {
            assert(contents.mass(t) * target.total_spec() == target.mass(t)
                * contents.total_spec());
        }
    }
    assert(threshold * target.total_spec() >= 0) by (nonlinear_arith);
}

/// Totals further apart than the threshold make the customer angry, with or
/// without a counterfeit weight on the scale.
pub proof fn lemma_noticed_shortfall_angers(
    contents: ItemMasses,
    target: ItemMasses,
    weights: ScaleWeights,
    sus: bool,
    threshold: u32,
)
    requires
        target.diff_exceeds_spec(contents, threshold),
    ensures
        judgement(contents, target, weights, sus, threshold) == CustomerState::Angry,
{
}

/// Totals that differ within the threshold, with a counterfeit weight on the
/// scale, never anger the customer: the verdict is payment or rejection.
pub proof fn lemma_covered_shortfall_is_not_angry(
    contents: ItemMasses,
    target: ItemMasses,
    weights: ScaleWeights,
    threshold: u32,
)
    requires
        contents.total_spec() != target.total_spec(),
        !target.diff_exceeds_spec(contents, threshold),
    ensures
        judgement(contents, target, weights, true, threshold) != CustomerState::Angry,
        judgement(contents, target, weights, true, threshold) == CustomerState::Payment
            || judgement(contents, target, weights, true, threshold) == CustomerState::Reject,
{
}

/// Totals that differ with no counterfeit weight on the scale always anger
/// the customer, however small the difference.
pub proof fn lemma_uncovered_shortfall_angers(
    contents: ItemMasses,
    target: ItemMasses,
    weights: ScaleWeights,
    threshold: u32,
)
    requires
        contents.total_spec() != target.total_spec(),
    ensures
        judgement(contents, target, weights, false, threshold) == CustomerState::Angry,
{
}

/// A colour, one byte per channel.
#[derive(Debug, Clone, Copy, PartialEq, Eq, Structural)]
pub struct Rgb {
    pub red: u8,
    pub green: u8,
    pub blue: u8,
}

/// A kind of customer: what they say, what they may ask for, how closely
/// they watch, and how much a deal moves the merchant's reputation.
#[derive(Debug)]
pub struct CharacterTraits {
    pub name: String,
    pub color: Rgb,
    pub greeting: Vec<String>,
    pub thinking: String,
    pub accept: String,
    pub reject: String,
    pub accuse: String,
    pub request: Vec<ItemRequest>,
    pub attention_type: AttentionType,
    pub rep_hit: u8,
}

impl CharacterTraits {
    /// At least one request, none of them empty, and usable odds.
    pub open spec fn wf(&self) -> bool {
        &&& self.request@.len() > 0
        &&& forall|i: int|
            0 <= i < self.request@.len() ==> #[trigger] self.request@[i].masses.total_spec() > 0
        &&& self.attention_type.wf()
    }

    /// Whether the record can be used: see `wf`.
    pub fn is_valid(&self) -> (r: bool)
        ensures
            r == self.wf(),
    {
        if self.request.len() == 0 || !self.attention_type.is_valid() {
            return false;
        }
        let mut i: usize = 0;
        while i < self.request.len()
            invariant
                i <= self.request@.len(),
                forall|j: int| 0 <= j < i ==> #[trigger] self.request@[j].masses.total_spec() > 0,
            decreases self.request@.len() - i,
        {
            if self.request[i].masses.total() == 0 {
                return false;
            }
            i = i + 1;
        }
        true
    }

    /// The request at `index` of the configured ones.
    pub fn pick_request(&self, index: usize) -> (r: ItemRequest)
        requires
            index < self.request@.len(),
        ensures
            r == self.request@[index as int],
    {
        self.request[index]
    }

    /// One of the configured requests, chosen uniformly at random.
    pub fn generate_request(&self) -> (r: ItemRequest)
        requires
            self.request@.len() > 0,
        ensures
            self.request@.contains(r),
    {
        let i = random_in(0, (self.request.len() - 1) as u64) as usize;
        let r = self.pick_request(i);
        assert(self.request@[i as int] == r);
        r
    }
}

/// The kinds of customer.
#[derive(Debug, Clone, Copy, PartialEq, Eq, Structural, Hash)]
pub enum Archetype {
    Dumb,
    Attentive,
    Normal,
    Cop,
}

/// The record of each kind of customer.
#[derive(Debug)]
pub struct Characters {
    pub dumb: CharacterTraits,
    pub attentive: CharacterTraits,
    pub normal: CharacterTraits,
    pub cop: CharacterTraits,
}

impl Characters {
    pub open spec fn traits(&self, a: Archetype) -> CharacterTraits {
        match a {
            Archetype::Dumb => self.dumb,
            Archetype::Attentive => self.attentive,
            Archetype::Normal => self.normal,
            Archetype::Cop => self.cop,
        }
    }

    pub open spec fn wf(&self) -> bool {
        &&& self.dumb.wf()
        &&& self.attentive.wf()
        &&& self.normal.wf()
        &&& self.cop.wf()
    }

    /// The record of `a`.
    pub fn get(&self, a: Archetype) -> (r: &CharacterTraits)
        ensures
            *r == self.traits(a),
    {
        match a {
            Archetype::Dumb => &self.dumb,
            Archetype::Attentive => &self.attentive,
            Archetype::Normal => &self.normal,
            Archetype::Cop => &self.cop,
        }
    }

    /// Whether every record can be used.
    pub fn is_valid(&self) -> (r: bool)
        ensures
            r == self.wf(),
    {
        self.dumb.is_valid() && self.attentive.is_valid() && self.normal.is_valid()
            && self.cop.is_valid()
    }
}

/// Which kinds of customer come to a merchant of reputation `rep`.
pub open spec fn available_spec(rep: u8) -> Seq<Archetype> {
    if rep <= 10 {
        seq![Archetype::Cop]
    } else if rep <= 25 {
        seq![Archetype::Dumb, Archetype::Cop]
    } else if rep <= 50 {
        seq![Archetype::Normal, Archetype::Dumb]
    } else {
        seq![Archetype::Normal, Archetype::Attentive, Archetype::Dumb]
    }
}

/// The kinds of customer that may come next.
#[derive(Debug)]
pub struct AvailableCustomers {
    pub archetypes: Vec<Archetype>,
}

impl AvailableCustomers {
    /// The kinds that come to a merchant of reputation `rep`: only the cop
    /// up to 10, the dumb one and the cop up to 25, the normal and the dumb
    /// one up to 50, and above that the normal, attentive and dumb ones.
    pub fn for_reputation(rep: u8) -> (r: AvailableCustomers)
        ensures
            r.archetypes@ == available_spec(rep),
    {
        let archetypes = if rep <= 10 {
            vec![Archetype::Cop]
        } else if rep <= 25 {
            vec![Archetype::Dumb, Archetype::Cop]
        } else if rep <= 50 {
            vec![Archetype::Normal, Archetype::Dumb]
        } else {
            vec![Archetype::Normal, Archetype::Attentive, Archetype::Dumb]
        };
        let r = AvailableCustomers { archetypes };
        assert(r.archetypes@ =~= available_spec(rep));
        r
    }
}

} // verus!
