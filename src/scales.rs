//! The two-pan balance: weights on the left pan, goods on the right.

use vstd::prelude::*;

use crate::goods::{ItemMasses, ItemType, Portion, portion_mass};

verus! {

/// How many weight slots the table has; each slot holds a genuine weight and
/// its counterfeit twin.
pub const WEIGHT_COUNT: usize = 6;

/// The mass written on the weights of a slot, in decigrams: 10, 5, 4, 3, 2
/// and 1 gram.
pub open spec fn declared_mass(slot: int) -> nat {
    if slot == 0 {
        100
    } else if slot == 1 {
        50
    } else if slot == 2 {
        40
    } else if slot == 3 {
        30
    } else if slot == 4 {
        20
    } else {
        10
    }
}

/// Which weight of a slot is on the scale, if any. Both never are.
#[derive(Debug, Clone, Copy, PartialEq, Eq, Structural)]
pub enum Placement {
    OnTable,
    Genuine,
    Counterfeit,
}

/// One physical weight: the genuine or the counterfeit one of a slot.
#[derive(Debug, Clone, Copy, PartialEq, Eq, Structural)]
pub struct WeightId {
    pub slot: usize,
    pub counterfeit: bool,
}

pub open spec fn placement_of(id: WeightId) -> Placement {
    if id.counterfeit {
        Placement::Counterfeit
    } else {
        Placement::Genuine
    }
}

/// What a slot in state `p` puts on the left pan: the declared mass for the
/// genuine weight, half of it for the counterfeit one.
pub open spec fn slot_mass(slot: int, p: Placement) -> nat {
    match p {
        Placement::OnTable => 0,
        Placement::Genuine => declared_mass(slot),
        Placement::Counterfeit => declared_mass(slot) / 2,
    }
}

/// The real mass of the weights on the scale.
pub open spec fn placed_mass(s: Seq<Placement>) -> nat {
    slot_mass(0, s[0]) + slot_mass(1, s[1]) + slot_mass(2, s[2]) + slot_mass(3, s[3]) + slot_mass(
        4,
        s[4],
    ) + slot_mass(5, s[5])
}

/// Some counterfeit weight is on the scale.
pub open spec fn has_counterfeit(s: Seq<Placement>) -> bool {
    exists|i: int| 0 <= i < s.len() && #[trigger] s[i] == Placement::Counterfeit
}

/// Putting a counterfeit weight from the table on the scale adds half its
/// declared mass to the left pan and makes the scale suspect; taking it off
/// again restores the left pan, and the scale stays suspect exactly when
/// another counterfeit weight is on it.
pub proof fn lemma_counterfeit_round_trip(s: Seq<Placement>, slot: int)
    requires
        s.len() == WEIGHT_COUNT,
        0 <= slot < WEIGHT_COUNT,
        s[slot] == Placement::OnTable,
    ensures
        placed_mass(s.update(slot, Placement::Counterfeit)) == placed_mass(s) + declared_mass(slot)
            / 2,
        has_counterfeit(s.update(slot, Placement::Counterfeit)),
        placed_mass(s.update(slot, Placement::Counterfeit).update(slot, Placement::OnTable))
            == placed_mass(s),
        has_counterfeit(s.update(slot, Placement::Counterfeit).update(slot, Placement::OnTable))
            == has_counterfeit(s),
        has_counterfeit(s) == exists|j: int|
            0 <= j < WEIGHT_COUNT && j != slot && #[trigger] s[j] == Placement::Counterfeit,
{
    let a = s.update(slot, Placement::Counterfeit);
    let b = a.update(slot, Placement::OnTable);
    assert(a[slot] == Placement::Counterfeit);
    assert(b =~= s);
}

/// The mass written on the weights of `slot`, in decigrams.
pub fn declared_mass_of(slot: usize) -> (r: u64)
    requires
        slot < WEIGHT_COUNT,
    ensures
        r == declared_mass(slot as int),
{
    if slot == 0 {
        100
    } else if slot == 1 {
        50
    } else if slot == 2 {
        40
    } else if slot == 3 {
        30
    } else if slot == 4 {
        20
    } else {
        10
    }
}

/// The real mass of a weight, in decigrams.
pub fn real_mass_of(id: WeightId) -> (r: u64)
    requires
        id.slot < WEIGHT_COUNT,
    ensures
        r == slot_mass(id.slot as int, placement_of(id)),
{
    let m = declared_mass_of(id.slot);
    if id.counterfeit {
        m / 2
    } else {
        m
    }
}

/// Which way the balance arm leans.
#[derive(Debug, Clone, Copy, PartialEq, Eq, Structural)]
pub enum Tilt {
    LeftDown,
    RightDown,
    Level,
}

/// The masses on the two pans, in decigrams: `left` is the real mass of the
/// weights, `right` mirrors the total of the current request.
#[derive(Debug, Clone, Copy, PartialEq, Eq, Structural)]
pub struct ScaleWeights {
    pub left: u64,
    pub right: u64,
}

impl ScaleWeights {
    /// The pans balance exactly.
    pub fn is_even(&self) -> (r: bool)
        ensures
            r == (self.left == self.right),
    {
        self.left == self.right
    }

    /// Which way the arm leans.
    pub fn tilt(&self) -> (r: Tilt)
        ensures
            r == Tilt::LeftDown <==> self.left > self.right,
            r == Tilt::RightDown <==> self.left < self.right,
            r == Tilt::Level <==> self.left == self.right,
    {
        if self.left > self.right {
            Tilt::LeftDown
        } else if self.left < self.right {
            Tilt::RightDown
        } else {
            Tilt::Level
        }
    }
}

/// The goods piled on the scale.
#[derive(Debug, Clone, Copy, PartialEq, Eq, Structural)]
pub struct ScaleContents {
    pub masses: ItemMasses,
}

/// The balance with its weights, pans and piles.
#[derive(Debug)]
pub struct Scale {
    /// What of each slot is on the scale.
    pub slots: Vec<Placement>,
    pub weights: ScaleWeights,
    pub contents: ScaleContents,
    /// Set exactly while a counterfeit weight is on the scale.
    pub sus: bool,
}

impl Scale {
    pub open spec fn wf(&self) -> bool {
        &&& self.slots@.len() == WEIGHT_COUNT
        &&& self.weights.left == placed_mass(self.slots@)
        &&& self.sus == has_counterfeit(self.slots@)
    }

    /// All weights on the table, no goods, both pans at zero.
    pub fn new() -> (r: Scale)
        ensures
            r.wf(),
            forall|i: int| 0 <= i < WEIGHT_COUNT ==> r.slots@[i] == Placement::OnTable,
            r.weights == (ScaleWeights { left: 0, right: 0 }),
            forall|t: ItemType| r.contents.masses.mass(t) == 0,
            !r.sus,
    {
        let mut slots: Vec<Placement> = Vec::new();
        let mut i: usize = 0;
        while i < WEIGHT_COUNT
            invariant
                i <= WEIGHT_COUNT,
                slots@.len() == i,
                forall|j: int| 0 <= j < i ==> slots@[j] == Placement::OnTable,
            decreases WEIGHT_COUNT - i,
        {
            slots.push(Placement::OnTable);
            i = i + 1;
        }
        Scale {
            slots,
            weights: ScaleWeights { left: 0, right: 0 },
            contents: ScaleContents { masses: ItemMasses::empty() },
            sus: false,
        }
    }

    /// Whether a counterfeit weight is on the scale.
    pub fn is_sus(&self) -> (r: bool)
        requires
            self.wf(),
        ensures
            r == has_counterfeit(self.slots@),
    {
        self.sus
    }

    /// Sets the suspect flag from the slots.
    pub fn update_sus(&mut self)
        requires
            old(self).slots@.len() == WEIGHT_COUNT,
        ensures
            final(self).slots == old(self).slots,
            final(self).weights == old(self).weights,
            final(self).contents == old(self).contents,
            final(self).sus == has_counterfeit(final(self).slots@),
    {
        let mut found = false;
        let mut i: usize = 0;
        while i < WEIGHT_COUNT
            invariant
                i <= WEIGHT_COUNT,
                self.slots@.len() == WEIGHT_COUNT,
                found == exists|j: int| 0 <= j < i && #[trigger] self.slots@[j]
                    == Placement::Counterfeit,
            decreases WEIGHT_COUNT - i,
        {
            if self.slots[i] == Placement::Counterfeit {
                found = true;
            }
            i = i + 1;
        }
        self.sus = found;
    }

    /// Moves weight `id` from the table onto the scale. Its twin leaves the
    /// scale first if it is there. Returns whether the weight moved; it does
    /// not when it is on the scale already or `id` names no slot.
    pub fn add_weight(&mut self, id: WeightId) -> (moved: bool)
        requires
            old(self).wf(),
        ensures
            final(self).wf(),
            moved == (id.slot < WEIGHT_COUNT && old(self).slots@[id.slot as int] != placement_of(
                id,
            )),
            moved ==> final(self).slots@ == old(self).slots@.update(
                id.slot as int,
                placement_of(id),
            ),
            !moved ==> *final(self) == *old(self),
            final(self).weights.right == old(self).weights.right,
            final(self).contents == old(self).contents,
    {
        if id.slot >= WEIGHT_COUNT {
            return false;
        }
        let before = self.slots[id.slot];
        let after = if id.counterfeit {
            Placement::Counterfeit
        } else {
            Placement::Genuine
        };
        if before == after {
            return false;
        }
        let twin = WeightId { slot: id.slot, counterfeit: !id.counterfeit };
        let out: u64 = if before == Placement::OnTable {
            0
        } else {
            real_mass_of(twin)
        };
        self.slots.set(id.slot, after);
        self.weights.left = self.weights.left - out + real_mass_of(id);
        self.update_sus();
        true
    }

    /// Moves weight `id` from the scale back to the table. Returns whether
    /// it moved; it does not when it is not on the scale.
    pub fn remove_weight(&mut self, id: WeightId) -> (moved: bool)
        requires
            old(self).wf(),
        ensures
            final(self).wf(),
            moved == (id.slot < WEIGHT_COUNT && old(self).slots@[id.slot as int] == placement_of(
                id,
            )),
            moved ==> final(self).slots@ == old(self).slots@.update(
                id.slot as int,
                Placement::OnTable,
            ),
            !moved ==> *final(self) == *old(self),
            final(self).weights.right == old(self).weights.right,
            final(self).contents == old(self).contents,
    {
        if id.slot >= WEIGHT_COUNT {
            return false;
        }
        let here = if id.counterfeit {
            Placement::Counterfeit
        } else {
            Placement::Genuine
        };
        if self.slots[id.slot] != here {
            return false;
        }
        self.slots.set(id.slot, Placement::OnTable);
        self.weights.left = self.weights.left - real_mass_of(id);
        self.update_sus();
        true
    }

    /// Adds a portion of `t` to its pile.
    pub fn add_item(&mut self, t: ItemType, portion: Portion)
        requires
            old(self).wf(),
            old(self).contents.masses.mass(t) + portion_mass(portion) <= u32::MAX,
        ensures
            final(self).wf(),
            final(self).contents.masses == old(self).contents.masses.with_mass(
                t,
                (old(self).contents.masses.mass(t) + portion_mass(portion)) as u32,
            ),
            final(self).slots == old(self).slots,
            final(self).weights == old(self).weights,
    {
        let m = self.contents.masses.get(t);
        self.contents.masses.set(t, m + portion.mass());
    }

    /// Takes a portion of `t` from its pile; a pile that would go to zero or
    /// below is gone.
    pub fn remove_item(&mut self, t: ItemType, portion: Portion)
        requires
            old(self).wf(),
        ensures
            final(self).wf(),
            final(self).contents.masses == old(self).contents.masses.with_mass(
                t,
                if old(self).contents.masses.mass(t) > portion_mass(portion) {
                    (old(self).contents.masses.mass(t) - portion_mass(portion)) as u32
                } else {
                    0
                },
            ),
            final(self).slots == old(self).slots,
            final(self).weights == old(self).weights,
    {
        let m = self.contents.masses.get(t);
        let p = portion.mass();
        let left = if m > p {
            m - p
        } else {
            0
        };
        self.contents.masses.set(t, left);
    }

    /// Sets the right pan to mirror a request of total mass `mass`.
    pub fn set_right(&mut self, mass: u64)
        requires
            old(self).wf(),
        ensures
            final(self).wf(),
            final(self).weights.right == mass,
            final(self).weights.left == old(self).weights.left,
            final(self).slots == old(self).slots,
            final(self).contents == old(self).contents,
    {
        self.weights.right = mass;
    }

    /// Puts every weight back on the table, clears the piles and both pans.
    pub fn reset(&mut self)
        requires
            old(self).wf(),
        ensures
            final(self).wf(),
            forall|i: int| 0 <= i < WEIGHT_COUNT ==> final(self).slots@[i] == Placement::OnTable,
            final(self).weights == (ScaleWeights { left: 0, right: 0 }),
            forall|t: ItemType| final(self).contents.masses.mass(t) == 0,
            !final(self).sus,
    {
        *self = Scale::new();
    }
}

} // verus!
