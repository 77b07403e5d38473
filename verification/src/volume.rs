//! Output volume in whole percent.

use vstd::prelude::*;

verus! {

/// Full volume, in percent.
pub const VOLUME_MAX: u8 = 100;

/// How far one volume command moves the volume, in percent.
pub const VOLUME_STEP: u8 = 10;

/// The level one step above `level`, at most full volume.
pub open spec fn raised(level: nat) -> nat {
    if level + 10 <= 100 {
        level + 10
    } else {
        100
    }
}

/// The level one step below `level`, at least silence.
pub open spec fn lowered(level: nat) -> nat {
    if level >= 10 {
        (level - 10) as nat
    } else {
        0
    }
}

/// The level reached from `level` by a run of single steps, each of them up
/// (`true`) or down (`false`), taken in order.
pub open spec fn adjusted(level: nat, steps: Seq<bool>) -> nat
    decreases steps.len(),
{
    if steps.len() == 0 {
        level
    } else {
        let before = adjusted(level, steps.drop_last());
        if steps.last() {
            raised(before)
        } else {
            lowered(before)
        }
    }
}

/// However many steps are taken and in whichever directions, a volume that
/// starts between silence and full volume stays there.
pub proof fn lemma_adjusted_stays_in_range(level: nat, steps: Seq<bool>)
    requires
        level <= 100,
    ensures
        adjusted(level, steps) <= 100,
    decreases steps.len(),
{
    if steps.len() > 0 {
        lemma_adjusted_stays_in_range(level, steps.drop_last());
    }
}

/// A volume level between silence and full volume.
///
/// The view is the level in percent, from 0 to 100.
#[derive(Clone, Copy, Debug, PartialEq, Eq, Structural)]
pub struct Volume {
    percent: u8,
}

impl View for Volume {
    type V = nat;

    closed spec fn view(&self) -> nat {
        self.percent as nat
    }
}

impl Volume {
    #[verifier::type_invariant]
    closed spec fn in_range(self) -> bool {
        self.percent <= 100
    }

    /// Full volume.
    pub fn full() -> (volume: Volume)
        ensures
            volume@ == 100,
    {
        Volume { percent: VOLUME_MAX }
    }

    /// The volume of `percent` percent; anything above 100 is full volume.
    pub fn clamped(percent: u8) -> (volume: Volume)
        ensures
            volume@ == if percent <= 100 { percent as nat } else { 100 },
    {
        if percent <= VOLUME_MAX {
            Volume { percent }
        } else {
            Volume { percent: VOLUME_MAX }
        }
    }

    /// The level in percent.
    pub fn percent(&self) -> (percent: u8)
        ensures
            percent == self@,
            percent <= 100,
    {
        proof {
            use_type_invariant(self);
        }
        self.percent
    }

    /// One step louder, stopping at full volume.
    pub fn raise(&self) -> (volume: Volume)
        ensures
            volume@ == raised(self@),
    {
        proof {
            use_type_invariant(self);
        }
        if self.percent <= VOLUME_MAX - VOLUME_STEP {
            Volume { percent: self.percent + VOLUME_STEP }
        } else {
            Volume { percent: VOLUME_MAX }
        }
    }

    /// One step quieter, stopping at silence.
    pub fn lower(&self) -> (volume: Volume)
        ensures
            volume@ == lowered(self@),
    {
        proof {
            use_type_invariant(self);
        }
        if self.percent >= VOLUME_STEP {
            Volume { percent: self.percent - VOLUME_STEP }
        } else {
            Volume { percent: 0 }
        }
    }
}

} // verus!
