//! The goods on sale and masses of them.

use vstd::prelude::*;

verus! {

/// The goods a customer can ask for.
#[derive(Debug, Clone, Copy, PartialEq, Eq, Structural, Hash, PartialOrd, Ord)]
pub enum ItemType {
    Berries,
    GreenMush,
    SpiderEyes,
    VibrantSyrup,
}

/// Price of one gram of `t`, in tenths of a gold piece per decigram (which
/// is the same number as gold pieces per gram).
pub open spec fn unit_cost_of(t: ItemType) -> nat {
    match t {
        ItemType::Berries => 1,
        ItemType::GreenMush => 2,
        ItemType::SpiderEyes => 5,
        ItemType::VibrantSyrup => 8,
    }
}

impl ItemType {
    /// The price of one gram of this item, in gold.
    pub fn unit_cost(self) -> (r: u64)
        ensures
            r == unit_cost_of(self),
    {
        match self {
            ItemType::Berries => 1,
            ItemType::GreenMush => 2,
            ItemType::SpiderEyes => 5,
            ItemType::VibrantSyrup => 8,
        }
    }

    /// The item with the given position in declaration order.
    pub fn from_index(i: usize) -> (r: Option<ItemType>)
        ensures
            i == 0 <==> r == Some(ItemType::Berries),
            i == 1 <==> r == Some(ItemType::GreenMush),
            i == 2 <==> r == Some(ItemType::SpiderEyes),
            i == 3 <==> r == Some(ItemType::VibrantSyrup),
            i >= 4 <==> r is None,
    {
        match i {
            0 => Some(ItemType::Berries),
            1 => Some(ItemType::GreenMush),
            2 => Some(ItemType::SpiderEyes),
            3 => Some(ItemType::VibrantSyrup),
            _ => None,
        }
    }
}

/// The amount a single click adds to or takes from a pile: a whole gram, or
/// half a gram while the modifier is held.
#[derive(Debug, Clone, Copy, PartialEq, Eq, Structural)]
pub enum Portion {
    Whole,
    Half,
}

pub open spec fn portion_mass(p: Portion) -> nat {
    match p {
        Portion::Whole => 10,
        Portion::Half => 5,
    }
}

impl Portion {
    /// The mass of the portion, in decigrams.
    pub fn mass(self) -> (r: u32)
        ensures
            r == portion_mass(self),
    {
        match self {
            Portion::Whole => 10,
            Portion::Half => 5,
        }
    }
}

/// A mass in decigrams for each item type; an absent item has mass zero.
#[derive(Debug, Clone, Copy, PartialEq, Eq, Structural)]
pub struct ItemMasses {
    pub berries: u32,
    pub green_mush: u32,
    pub spider_eyes: u32,
    pub vibrant_syrup: u32,
}

impl ItemMasses {
    pub open spec fn mass(self, t: ItemType) -> nat {
        match t {
            ItemType::Berries => self.berries as nat,
            ItemType::GreenMush => self.green_mush as nat,
            ItemType::SpiderEyes => self.spider_eyes as nat,
            ItemType::VibrantSyrup => self.vibrant_syrup as nat,
        }
    }

    /// The same masses with that of `t` replaced by `m`.
    pub open spec fn with_mass(self, t: ItemType, m: u32) -> ItemMasses {
        match t {
            ItemType::Berries => ItemMasses { berries: m, ..self },
            ItemType::GreenMush => ItemMasses { green_mush: m, ..self },
            ItemType::SpiderEyes => ItemMasses { spider_eyes: m, ..self },
            ItemType::VibrantSyrup => ItemMasses { vibrant_syrup: m, ..self },
        }
    }

    pub open spec fn total_spec(self) -> nat {
        self.mass(ItemType::Berries) + self.mass(ItemType::GreenMush) + self.mass(
            ItemType::SpiderEyes,
        ) + self.mass(ItemType::VibrantSyrup)
    }

    /// The price of the goods: the sum of mass times unit cost.
    pub open spec fn cost_spec(self) -> nat {
        self.mass(ItemType::Berries) * unit_cost_of(ItemType::Berries) + self.mass(
            ItemType::GreenMush,
        ) * unit_cost_of(ItemType::GreenMush) + self.mass(ItemType::SpiderEyes) * unit_cost_of(
            ItemType::SpiderEyes,
        ) + self.mass(ItemType::VibrantSyrup) * unit_cost_of(ItemType::VibrantSyrup)
    }

    /// Each item makes up the same share of the total on both sides
    /// (`a / A == b / B`, compared as `a * B == b * A`); two empty sides
    /// agree, an empty and a non-empty side do not.
    pub open spec fn same_ratios_spec(self, other: ItemMasses) -> bool {
        &&& (self.total_spec() == 0 <==> other.total_spec() == 0)
        &&& forall|t: ItemType|
            #[trigger] self.mass(t) * other.total_spec() == other.mass(t) * self.total_spec()
    }

    /// The distance between the totals, relative to this total, is above
    /// `permille / 1000`: `|self - other| / self > permille / 1000`.
    pub open spec fn diff_exceeds_spec(self, other: ItemMasses, permille: u32) -> bool {
        1000 * abs_diff(self.total_spec() as int, other.total_spec() as int) > permille
            * self.total_spec()
    }

    /// No goods at all.
    pub fn empty() -> (r: ItemMasses)
        ensures
            forall|t: ItemType| r.mass(t) == 0,
            r.total_spec() == 0,
    {
        ItemMasses { berries: 0, green_mush: 0, spider_eyes: 0, vibrant_syrup: 0 }
    }

    /// The mass of `t`, in decigrams.
    pub fn get(&self, t: ItemType) -> (r: u32)
        ensures
            r == self.mass(t),
    {
        match t {
            ItemType::Berries => self.berries,
            ItemType::GreenMush => self.green_mush,
            ItemType::SpiderEyes => self.spider_eyes,
            ItemType::VibrantSyrup => self.vibrant_syrup,
        }
    }

    /// Replaces the mass of `t` by `m`.
    pub fn set(&mut self, t: ItemType, m: u32)
        ensures
            *final(self) == old(self).with_mass(t, m),
    {
        match t {
            ItemType::Berries => self.berries = m,
            ItemType::GreenMush => self.green_mush = m,
            ItemType::SpiderEyes => self.spider_eyes = m,
            ItemType::VibrantSyrup => self.vibrant_syrup = m,
        }
    }

    /// The total mass, in decigrams.
    pub fn total(&self) -> (r: u64)
        ensures
            r == self.total_spec(),
    {
        self.berries as u64 + self.green_mush as u64 + self.spider_eyes as u64
            + self.vibrant_syrup as u64
    }

    /// What the goods cost the merchant, in tenths of a gold piece.
    pub fn cost(&self) -> (r: u64)
        ensures
            r == self.cost_spec(),
    {
        self.berries as u64 * ItemType::Berries.unit_cost() + self.green_mush as u64
            * ItemType::GreenMush.unit_cost() + self.spider_eyes as u64
            * ItemType::SpiderEyes.unit_cost() + self.vibrant_syrup as u64
            * ItemType::VibrantSyrup.unit_cost()
    }

    /// What a customer pays for the goods: twice their cost.
    pub fn customer_cost(&self) -> (r: u64)
        ensures
            r == 2 * self.cost_spec(),
    {
        2 * self.cost()
    }

    /// Whether each item makes up the same share of the total here as in
    /// `other`.
    pub fn same_ratios(&self, other: &ItemMasses) -> (r: bool)
        ensures
            r == self.same_ratios_spec(*other),
    {
        let a = self.total();
        let b = other.total();
        if (a == 0) != (b == 0) {
            return false;
        }
        let ok_b = cross_equal(self.berries, b, other.berries, a);
        let ok_g = cross_equal(self.green_mush, b, other.green_mush, a);
        let ok_s = cross_equal(self.spider_eyes, b, other.spider_eyes, a);
        let ok_v = cross_equal(self.vibrant_syrup, b, other.vibrant_syrup, a);
        let r = ok_b && ok_g && ok_s && ok_v;
        assert(r ==> forall|t: ItemType|
            #[trigger] self.mass(t) * other.total_spec() == other.mass(t) * self.total_spec()) by {
            if r {
                assert forall|t: ItemType|
                    #[trigger] self.mass(t) * other.total_spec() == other.mass(t)
                        * self.total_spec() by {
                    match t {
                        ItemType::Berries => {},
                        ItemType::GreenMush => {},
                        ItemType::SpiderEyes => {},
                        ItemType::VibrantSyrup => {},
                    }
                }
            }
        }
        assert(!r ==> !(self.mass(ItemType::Berries) * other.total_spec() == other.mass(
            ItemType::Berries,
        ) * self.total_spec() && self.mass(ItemType::GreenMush) * other.total_spec()
            == other.mass(ItemType::GreenMush) * self.total_spec() && self.mass(
            ItemType::SpiderEyes,
        ) * other.total_spec() == other.mass(ItemType::SpiderEyes) * self.total_spec()
            && self.mass(ItemType::VibrantSyrup) * other.total_spec() == other.mass(
            ItemType::VibrantSyrup,
        ) * self.total_spec()));
        r
    }

    /// Whether `|self - other| / self`, the distance between the totals
    /// relative to this total, is above `permille / 1000`.
    pub fn diff_exceeds(&self, other: &ItemMasses, permille: u32) -> (r: bool)
        ensures
            r == self.diff_exceeds_spec(*other, permille),
    {
        let a = self.total();
        let b = other.total();
        let d: u64 = if a >= b {
            a - b
        } else {
            b - a
        };
        assert((permille as u128) * (a as u128) <= (u32::MAX as u128) * (4 * u32::MAX as u128))
            by (nonlinear_arith)
            requires
                permille <= u32::MAX,
                a <= 4 * u32::MAX,
        ;
        (d as u128) * 1000 > (permille as u128) * (a as u128)
    }
}

/// One of the mixes a customer may ask for; read-only once made.
#[derive(Debug, Clone, Copy, PartialEq, Eq, Structural)]
pub struct ItemRequest {
    pub masses: ItemMasses,
}

/// What the current customer asked for; empty while nobody is served.
#[derive(Debug, Clone, Copy, PartialEq, Eq, Structural)]
pub struct TargetWeight {
    pub masses: ItemMasses,
}

impl TargetWeight {
    /// No request.
    pub fn none() -> (r: TargetWeight)
        ensures
            forall|t: ItemType| r.masses.mass(t) == 0,
            r.masses.total_spec() == 0,
    {
        TargetWeight { masses: ItemMasses::empty() }
    }

    /// What the merchant makes on selling `goods` for this request: the
    /// customer's price less what the goods cost, in tenths of a gold piece.
    pub fn profit_on(&self, goods: &ItemMasses) -> (r: i64)
        ensures
            r == 2 * self.masses.cost_spec() - goods.cost_spec(),
    {
        self.masses.customer_cost() as i64 - goods.cost() as i64
    }

    /// The request as the current target.
    pub fn from_request(req: &ItemRequest) -> (r: TargetWeight)
        ensures
            r.masses == req.masses,
    {
        TargetWeight { masses: req.masses }
    }
}

pub open spec fn abs_diff(a: int, b: int) -> int {
    if a >= b {
        a - b
    } else {
        b - a
    }
}

/// Whether `a * b == c * d`, for masses `a`, `c` and totals `b`, `d`.
fn cross_equal(a: u32, b: u64, c: u32, d: u64) -> (r: bool)
    requires
        b <= 4 * u32::MAX,
        d <= 4 * u32::MAX,
    ensures
        r == (a * b == c * d),
{
    assert((a as u128) * (b as u128) <= (u32::MAX as u128) * (4 * u32::MAX as u128)) by (nonlinear_arith)
        requires
            a <= u32::MAX,
            b <= 4 * u32::MAX,
    ;
    assert((c as u128) * (d as u128) <= (u32::MAX as u128) * (4 * u32::MAX as u128)) by (nonlinear_arith)
        requires
            c <= u32::MAX,
            d <= 4 * u32::MAX,
    ;
    (a as u128) * (b as u128) == (c as u128) * (d as u128)
}

} // verus!
