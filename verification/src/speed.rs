//! The playback speeds that the player offers.

use vstd::prelude::*;

verus! {

/// A playback speed. There are four and no others.
#[derive(Clone, Copy, Debug, PartialEq, Eq, Structural)]
pub enum Speed {
    /// Half speed.
    Half,
    /// The speed of the recording.
    Normal,
    /// One and a half times the speed of the recording.
    OneAndHalf,
    /// Twice the speed of the recording.
    Double,
}

impl Speed {
    /// Twice the factor by which playback is sped up: 1 for half speed, 2
    /// for normal speed, 3 and 4 for the two faster ones.
    pub open spec fn halves_spec(self) -> nat {
        match self {
            Speed::Half => 1,
            Speed::Normal => 2,
            Speed::OneAndHalf => 3,
            Speed::Double => 4,
        }
    }

    /// The text that selects this speed when typed, and that the status line
    /// shows for it.
    pub open spec fn label_spec(self) -> Seq<char> {
        match self {
            Speed::Half => "0.5"@,
            Speed::Normal => "1"@,
            Speed::OneAndHalf => "1.5"@,
            Speed::Double => "2"@,
        }
    }

    /// Twice the speed factor, a whole number from 1 to 4.
    pub fn halves(self) -> (halves: u8)
        ensures
            halves == self.halves_spec(),
    {
        match self {
            Speed::Half => 1,
            Speed::Normal => 2,
            Speed::OneAndHalf => 3,
            Speed::Double => 4,
        }
    }

    /// The speed factor as text: `0.5`, `1`, `1.5` or `2`.
    pub fn label(self) -> (text: &'static str)
        ensures
            text@ == self.label_spec(),
    {
        match self {
            Speed::Half => "0.5",
            Speed::Normal => "1",
            Speed::OneAndHalf => "1.5",
            Speed::Double => "2",
        }
    }
}

} // verus!
