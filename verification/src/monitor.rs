//! The completion monitor: when a track counts as finished.

use vstd::prelude::*;
use crate::display::frame_text;
use crate::keys::Command;
use crate::position::Position;
use crate::transport::{flags_after_all, halted, lemma_ended_stays_ended, Controls, Flags};

verus! {

/// The length of a track in nanoseconds, where it is known.
pub open spec fn length_of(duration: Option<Position>) -> Option<nat> {
    match duration {
        Some(length) => Some(length@),
        None => None,
    }
}

/// Whether the track is over. With a known length it is over once the
/// position has reached that length; without one, once the sink has nothing
/// left to play.
pub open spec fn finished(length: Option<nat>, position: nat, sink_empty: bool) -> bool {
    match length {
        Some(end) => position >= end,
        None => sink_empty,
    }
}

/// The flags after the monitor has looked at the track once.
pub open spec fn flags_after_check(
    flags: Flags,
    length: Option<nat>,
    position: nat,
    sink_empty: bool,
) -> Flags {
    if finished(length, position, sink_empty) {
        halted(flags)
    } else {
        flags
    }
}

/// As soon as the monitor sees the position at or past a known length, the
/// session is over, whatever the flags were and whatever the sink holds.
pub proof fn lemma_track_end_halts(flags: Flags, length: nat, position: nat, sink_empty: bool)
    requires
        position >= length,
    ensures
        finished(Some(length), position, sink_empty),
        !flags_after_check(flags, Some(length), position, sink_empty).running,
{
}

/// Once the monitor has seen the position at or past a known length,
/// nothing is drawn any more: whatever commands still arrive and wherever
/// the sink then stands, the visualization loop has no frame.
pub proof fn lemma_no_frame_after_track_end(
    flags: Flags,
    length: nat,
    position: nat,
    sink_empty: bool,
    commands: Seq<Command>,
    later_position: nat,
    later_length: Option<nat>,
)
    requires
        position >= length,
    ensures
        frame_text(
            flags_after_all(
                flags_after_check(flags, Some(length), position, sink_empty),
                commands,
            ),
            later_position,
            later_length,
        ).is_none(),
{
    lemma_ended_stays_ended(
        flags_after_check(flags, Some(length), position, sink_empty),
        commands,
    );
}

/// Until the track is over the monitor changes nothing.
pub proof fn lemma_unfinished_track_changes_nothing(
    flags: Flags,
    length: Option<nat>,
    position: nat,
    sink_empty: bool,
)
    requires
        !finished(length, position, sink_empty),
    ensures
        flags_after_check(flags, length, position, sink_empty) == flags,
{
}

/// Whether the track is over, given its length where known, the position
/// that the sink reports and whether the sink has run empty.
pub fn track_finished(duration: &Option<Position>, position: &Position, sink_empty: bool) -> (done:
    bool)
    ensures
        done == finished(length_of(*duration), position@, sink_empty),
{
    match duration {
        Some(length) => position.reached(length),
        None => sink_empty,
    }
}

/// One look of the monitor at the track: ends the session if the track is
/// over, and says whether it did.
pub fn check_completion(
    controls: &mut Controls,
    duration: &Option<Position>,
    position: &Position,
    sink_empty: bool,
) -> (done: bool)
    ensures
        done == finished(length_of(*duration), position@, sink_empty),
        final(controls)@ == flags_after_check(
            old(controls)@,
            length_of(*duration),
            position@,
            sink_empty,
        ),
{
    let done: bool = track_finished(duration, position, sink_empty);
    if done {
        controls.halt();
    }
    done
}

} // verus!
