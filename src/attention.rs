//! Whether the customer is watching: a random toggle with a warning cue
//! before each change and a lockout after it.

use vstd::prelude::*;

use crate::chance::random_ratio;

verus! {

/// How long the "about to look away" cue shows before the change, in ms.
pub const CHANGE_DELAY_MS: u64 = 500;

/// How long the customer keeps a new attention state at least, in ms.
pub const LOCKOUT_MS: u64 = 1000;

/// Whether the customer is watching the scale.
#[derive(Debug, Clone, Copy, PartialEq, Eq, Structural, Hash)]
pub enum AttentionState {
    Attentive,
    Distracted,
}

impl AttentionState {
    pub open spec fn other_spec(self) -> AttentionState {
        match self {
            AttentionState::Attentive => AttentionState::Distracted,
            AttentionState::Distracted => AttentionState::Attentive,
        }
    }

    /// The opposite state.
    pub fn other(&self) -> (r: AttentionState)
        ensures
            r == self.other_spec(),
    {
        match self {
            AttentionState::Attentive => AttentionState::Distracted,
            AttentionState::Distracted => AttentionState::Attentive,
        }
    }
}

/// How a kind of customer pays attention. Odds are `(numerator,
/// denominator)` pairs, drawn on each tick the customer may change.
#[derive(Debug, Clone, Copy)]
pub struct AttentionType {
    /// Odds of looking away while attentive.
    pub get_distracted: (u32, u32),
    /// Odds of looking back while distracted.
    pub get_focused: (u32, u32),
    /// How far off the delivered total may be, relative to the request,
    /// before the customer notices, in thousandths.
    pub threshold: u32,
}

pub open spec fn valid_odds(o: (u32, u32)) -> bool {
    0 < o.1 && o.0 <= o.1
}

impl AttentionType {
    pub open spec fn wf(&self) -> bool {
        &&& valid_odds(self.get_distracted)
        &&& valid_odds(self.get_focused)
        &&& self.threshold <= 1000
    }

    pub open spec fn odds_spec(&self, state: AttentionState) -> (u32, u32) {
        match state {
            AttentionState::Attentive => self.get_distracted,
            AttentionState::Distracted => self.get_focused,
        }
    }

    /// The odds of leaving `state`.
    pub fn weights(&self, state: AttentionState) -> (r: (u32, u32))
        ensures
            r == self.odds_spec(state),
    {
        match state {
            AttentionState::Attentive => self.get_distracted,
            AttentionState::Distracted => self.get_focused,
        }
    }

    /// The relative error, in thousandths, above which the customer notices.
    pub fn sus_threshold(&self) -> (r: u32)
        ensures
            r == self.threshold,
    {
        self.threshold
    }

    /// Whether both odds can be drawn and the threshold is a fraction.
    pub fn is_valid(&self) -> (r: bool)
        ensures
            r == self.wf(),
    {
        0 < self.get_distracted.1 && self.get_distracted.0 <= self.get_distracted.1
            && 0 < self.get_focused.1 && self.get_focused.0 <= self.get_focused.1
            && self.threshold <= 1000
    }
}

/// The attention of the customer being served.
#[derive(Debug, Clone, Copy, PartialEq, Eq, Structural)]
pub struct Attention {
    pub state: AttentionState,
    /// A change has been drawn and is waiting out `delay_ms`.
    pub will_change: bool,
    pub delay_ms: u64,
    pub lockout_ms: u64,
}

impl Attention {
    pub open spec fn wf(&self) -> bool {
        self.will_change ==> self.lockout_ms == 0 && self.delay_ms > 0
    }

    /// A draw decides this tick: the lockout is over and no change is
    /// pending.
    pub open spec fn draws(&self) -> bool {
        self.lockout_ms == 0 && !self.will_change
    }

    /// The state after a tick of `elapsed` ms in which the draw came out
    /// `flip` (ignored when no draw is made).
    pub open spec fn stepped(self, elapsed: u64, flip: bool) -> Attention {
        if self.lockout_ms > 0 {
            Attention {
                lockout_ms: if self.lockout_ms > elapsed {
                    (self.lockout_ms - elapsed) as u64
                } else {
                    0
                },
                ..self
            }
        } else if !self.will_change {
            if flip {
                Attention { will_change: true, delay_ms: CHANGE_DELAY_MS, ..self }
            } else {
                self
            }
        } else if self.delay_ms > elapsed {
            Attention { delay_ms: (self.delay_ms - elapsed) as u64, ..self }
        } else {
            Attention {
                state: self.state.other_spec(),
                will_change: false,
                delay_ms: 0,
                lockout_ms: LOCKOUT_MS,
            }
        }
    }

    /// A fresh customer: attentive, with nothing pending.
    pub fn new() -> (r: Attention)
        ensures
            r.wf(),
            r == (Attention {
                state: AttentionState::Attentive,
                will_change: false,
                delay_ms: 0,
                lockout_ms: 0,
            }),
    {
        Attention { state: AttentionState::Attentive, will_change: false, delay_ms: 0, lockout_ms: 0 }
    }

    /// Whether the next tick makes a draw.
    pub fn needs_draw(&self) -> (r: bool)
        ensures
            r == self.draws(),
    {
        self.lockout_ms == 0 && !self.will_change
    }

    /// Advances by `elapsed` ms. While the lockout runs it only counts down;
    /// after it, a draw of `flip == true` raises the cue and starts the
    /// delay; when the delay runs out the state flips and the lockout
    /// starts.
    pub fn step(&mut self, elapsed: u64, flip: bool)
        requires
            old(self).wf(),
        ensures
            final(self).wf(),
            *final(self) == old(self).stepped(elapsed, flip),
    {
        if self.lockout_ms > 0 {
            self.lockout_ms = if self.lockout_ms > elapsed {
                self.lockout_ms - elapsed
            } else {
                0
            };
        } else if !self.will_change {
            if flip {
                self.will_change = true;
                self.delay_ms = CHANGE_DELAY_MS;
            }
        } else if self.delay_ms > elapsed {
            self.delay_ms = self.delay_ms - elapsed;
        } else {
            self.state = self.state.other();
            self.will_change = false;
            self.delay_ms = 0;
            self.lockout_ms = LOCKOUT_MS;
        }
    }

    /// Advances by `elapsed` ms, drawing with the odds of `kind` for the
    /// current state when a draw decides.
    pub fn tick(&mut self, elapsed: u64, kind: &AttentionType)
        requires
            old(self).wf(),
            kind.wf(),
        ensures
            final(self).wf(),
            exists|flip: bool| *final(self) == old(self).stepped(elapsed, flip),
            !old(self).draws() ==> *final(self) == old(self).stepped(elapsed, false),
            old(self).draws() && kind.odds_spec(old(self).state).0 == 0 ==> *final(self)
                == old(self).stepped(elapsed, false),
            old(self).draws() && kind.odds_spec(old(self).state).0 == kind.odds_spec(
                old(self).state,
            ).1 ==> *final(self) == old(self).stepped(elapsed, true),
    {
        let flip = if self.needs_draw() {
            let odds = kind.weights(self.state);
            random_ratio(odds.0, odds.1)
        } else {
            false
        };
        self.step(elapsed, flip);
    }
}

} // verus!
