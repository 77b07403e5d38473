//! Playback time as whole seconds and nanoseconds.

use vstd::prelude::*;

verus! {

/// Nanoseconds in one second.
pub const NANOS_PER_SEC: u32 = 1_000_000_000;

/// How far one seek command moves the playback position, in seconds.
pub const SEEK_STEP_SECS: u64 = 5;

/// The nanoseconds that a seek step spans.
pub open spec fn seek_step_nanos() -> nat {
    5_000_000_000
}

/// The position five seconds before `at`, or the start of the track where
/// `at` lies within its first five seconds.
pub open spec fn rewound(at: nat) -> nat {
    if at >= seek_step_nanos() {
        (at - seek_step_nanos()) as nat
    } else {
        0
    }
}

/// The position five seconds after `at`.
pub open spec fn advanced(at: nat) -> nat {
    at + seek_step_nanos()
}

/// Seeking back never lands before the start of the track: from within the
/// first five seconds it lands on the start, from anywhere else exactly five
/// seconds earlier.
pub proof fn lemma_rewound_stops_at_start(at: nat)
    ensures
        at < seek_step_nanos() ==> rewound(at) == 0,
        at >= seek_step_nanos() ==> rewound(at) + seek_step_nanos() == at,
        rewound(at) <= at,
{
}

/// The largest position that can still be moved forward by one seek step.
pub open spec fn last_advanceable() -> nat {
    ((u64::MAX - 5) * 1_000_000_000 + 999_999_999) as nat
}

/// The bound that every position lies below, in nanoseconds.
pub open spec fn horizon() -> nat {
    0x1_0000_0000_0000_0000 * 1_000_000_000
}

/// A point in time on the track, or a length of time.
///
/// The view is the time in nanoseconds.
#[derive(Clone, Copy, Debug, PartialEq, Eq, Structural)]
pub struct Position {
    secs: u64,
    nanos: u32,
}

impl View for Position {
    type V = nat;

    closed spec fn view(&self) -> nat {
        (self.secs * 1_000_000_000 + self.nanos) as nat
    }
}

impl Position {
    #[verifier::type_invariant]
    closed spec fn subsecond(self) -> bool {
        self.nanos < 1_000_000_000
    }

    /// The start of the track.
    pub fn zero() -> (at: Position)
        ensures
            at@ == 0,
    {
        Position { secs: 0, nanos: 0 }
    }

    /// The position `secs` whole seconds into the track.
    pub fn from_secs(secs: u64) -> (at: Position)
        ensures
            at@ == secs * 1_000_000_000,
    {
        Position { secs, nanos: 0 }
    }

    /// The position `secs` seconds and `nanos` nanoseconds into the track.
    /// There is none where `nanos` is a full second or more.
    pub fn from_parts(secs: u64, nanos: u32) -> (at: Option<Position>)
        ensures
            nanos < 1_000_000_000 ==> at.is_some() && at.unwrap()@ == secs * 1_000_000_000 + nanos,
            nanos >= 1_000_000_000 ==> at.is_none(),
    {
        if nanos < NANOS_PER_SEC {
            Some(Position { secs, nanos })
        } else {
            None
        }
    }

    /// The whole seconds of this position.
    pub fn secs(&self) -> (secs: u64)
        ensures
            secs == self@ / 1_000_000_000,
    {
        proof {
            use_type_invariant(self);
        }
        self.secs
    }

    /// The nanoseconds past the last whole second.
    pub fn subsec_nanos(&self) -> (nanos: u32)
        ensures
            nanos == self@ % 1_000_000_000,
    {
        proof {
            use_type_invariant(self);
        }
        self.nanos
    }

    /// The whole position in nanoseconds.
    pub fn as_nanos(&self) -> (nanos: u128)
        ensures
            nanos == self@,
            nanos < horizon(),
    {
        proof {
            use_type_invariant(self);
        }
        let secs: u128 = self.secs as u128;
        let nanos: u128 = self.nanos as u128;
        secs * 1_000_000_000 + nanos
    }

    /// Whether this position lies at or past `mark`.
    pub fn reached(&self, mark: &Position) -> (yes: bool)
        ensures
            yes == (self@ >= mark@),
    {
        proof {
            use_type_invariant(self);
            use_type_invariant(mark);
        }
        self.secs > mark.secs || (self.secs == mark.secs && self.nanos >= mark.nanos)
    }

    /// Whether one seek step forward from here is still a position.
    pub fn can_advance(&self) -> (yes: bool)
        ensures
            yes == (self@ <= last_advanceable()),
    {
        proof {
            use_type_invariant(self);
        }
        self.secs <= u64::MAX - SEEK_STEP_SECS
    }

    /// Five seconds back, stopping at the start of the track.
    pub fn rewind(&self) -> (at: Position)
        ensures
            at@ == rewound(self@),
    {
        proof {
            use_type_invariant(self);
        }
        if self.secs >= SEEK_STEP_SECS {
            Position { secs: self.secs - SEEK_STEP_SECS, nanos: self.nanos }
        } else {
            Position { secs: 0, nanos: 0 }
        }
    }

    /// Five seconds ahead.
    pub fn advance(&self) -> (at: Position)
        requires
            self@ <= last_advanceable(),
        ensures
            at@ == advanced(self@),
    {
        proof {
            use_type_invariant(self);
        }
        Position { secs: self.secs + SEEK_STEP_SECS, nanos: self.nanos }
    }
}

} // verus!
