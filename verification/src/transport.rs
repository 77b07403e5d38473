//! The shared playback flags and what each command does to them and to the
//! audio sink.

use vstd::prelude::*;
use crate::keys::{fresh, run, Command, Escape, KeyState, ARROW_UP, BRACKET, ESC, KEY_LOUDER};
use crate::position::{advanced, last_advanceable, rewound, seek_step_nanos, Position};
use crate::speed::Speed;
use crate::typing::{
    keystrokes, lemma_arrow_matches_key, lemma_typing_speed, lemma_typing_speed_twice,
};
use crate::volume::{lowered, raised, Volume};

verus! {

/// What the audio sink reported when it was last asked.
#[derive(Clone, Copy, Debug, PartialEq, Eq)]
pub struct SinkStatus {
    /// The volume it plays at.
    pub volume: Volume,
    /// How far into the track it is.
    pub position: Position,
}

/// What the player asks of the audio sink, or of itself, in answer to a
/// command.
///
/// The view holds the same request over plain numbers: a volume in percent,
/// a position in nanoseconds.
#[derive(Clone, Copy, Debug, PartialEq, Eq)]
pub enum Action {
    /// Play at this volume.
    SetVolume(Volume),
    /// Continue from this position.
    SeekTo(Position),
    /// Continue playing.
    Resume,
    /// Hold playback.
    Pause,
    /// Play at this speed.
    SetSpeed(Speed),
    /// End the session: nothing is asked of the sink.
    Shutdown,
}

/// An [`Action`] over plain numbers.
pub enum ActionView {
    /// Play at this volume, in percent.
    SetVolume(nat),
    /// Continue from this position, in nanoseconds.
    SeekTo(nat),
    /// Continue playing.
    Resume,
    /// Hold playback.
    Pause,
    /// Play at this speed.
    SetSpeed(Speed),
    /// End the session.
    Shutdown,
}

impl View for Action {
    type V = ActionView;

    open spec fn view(&self) -> ActionView {
        match *self {
            Action::SetVolume(volume) => ActionView::SetVolume(volume@),
            Action::SeekTo(position) => ActionView::SeekTo(position@),
            Action::Resume => ActionView::Resume,
            Action::Pause => ActionView::Pause,
            Action::SetSpeed(speed) => ActionView::SetSpeed(speed),
            Action::Shutdown => ActionView::Shutdown,
        }
    }
}

/// The playback flags that every part of the player reads.
pub struct Flags {
    /// Whether the session is still on.
    pub running: bool,
    /// Whether playback is held.
    pub paused: bool,
    /// The speed that was last chosen.
    pub speed: Speed,
}

/// The flags of a session that has just begun: on, playing, at normal speed.
pub open spec fn initial() -> Flags {
    Flags { running: true, paused: false, speed: Speed::Normal }
}

/// The flags once the session has been ended.
pub open spec fn halted(flags: Flags) -> Flags {
    Flags { running: false, paused: flags.paused, speed: flags.speed }
}

/// The flags after `command`.
pub open spec fn flags_after(flags: Flags, command: Command) -> Flags {
    match command {
        Command::TogglePause => Flags {
            running: flags.running,
            paused: !flags.paused,
            speed: flags.speed,
        },
        Command::SetSpeed(speed) => Flags {
            running: flags.running,
            paused: flags.paused,
            speed: speed,
        },
        Command::Stop => halted(flags),
        _ => flags,
    }
}

/// What `command` asks for, given the flags before it and what the sink
/// reported: its volume in percent and its position in nanoseconds.
pub open spec fn action_for(flags: Flags, command: Command, volume: nat, position: nat) -> ActionView {
    match command {
        Command::VolumeUp => ActionView::SetVolume(raised(volume)),
        Command::VolumeDown => ActionView::SetVolume(lowered(volume)),
        Command::SeekBack => ActionView::SeekTo(rewound(position)),
        Command::SeekForward => ActionView::SeekTo(advanced(position)),
        Command::TogglePause => if flags.paused {
            ActionView::Resume
        } else {
            ActionView::Pause
        },
        Command::SetSpeed(speed) => ActionView::SetSpeed(speed),
        Command::Stop => ActionView::Shutdown,
    }
}

/// Whether `command` can be carried out with the sink at `position`. Every
/// command can, but for a seek forward from so far out that five seconds
/// more is no position any longer.
pub open spec fn applicable(command: Command, position: nat) -> bool {
    command == Command::SeekForward ==> position <= last_advanceable()
}

/// The flags after a run of commands, taken in order.
pub open spec fn flags_after_all(flags: Flags, commands: Seq<Command>) -> Flags
    decreases commands.len(),
{
    if commands.len() == 0 {
        flags
    } else {
        flags_after(flags_after_all(flags, commands.drop_last()), commands.last())
    }
}

/// A session that has ended stays ended: no command sets it running again.
pub proof fn lemma_ended_stays_ended(flags: Flags, commands: Seq<Command>)
    requires
        !flags.running,
    ensures
        !flags_after_all(flags, commands).running,
    decreases commands.len(),
{
    if commands.len() > 0 {
        lemma_ended_stays_ended(flags, commands.drop_last());
    }
}

/// Only the command to stop ends a session.
pub proof fn lemma_only_stop_ends(flags: Flags, command: Command)
    requires
        flags.running,
    ensures
        flags_after(flags, command).running <==> command != Command::Stop,
{
}

/// Toggling twice is as good as not toggling: the flags are what they were,
/// and of the two requests to the sink one is to pause and one to resume.
pub proof fn lemma_toggle_twice_restores(flags: Flags, volume: nat, position: nat)
    ensures
        flags_after(flags_after(flags, Command::TogglePause), Command::TogglePause) == flags,
        action_for(flags, Command::TogglePause, volume, position) != action_for(
            flags_after(flags, Command::TogglePause),
            Command::TogglePause,
            volume,
            position,
        ),
{
}

/// Choosing a speed twice is choosing it once: the flags and the request to
/// the sink are the same after the second time as after the first.
pub proof fn lemma_speed_choice_idempotent(
    flags: Flags,
    speed: Speed,
    volume: nat,
    position: nat,
    later_volume: nat,
    later_position: nat,
)
    ensures
        flags_after(flags_after(flags, Command::SetSpeed(speed)), Command::SetSpeed(speed))
            == flags_after(flags, Command::SetSpeed(speed)),
        flags_after(flags, Command::SetSpeed(speed)).speed == speed,
        action_for(
            flags_after(flags, Command::SetSpeed(speed)),
            Command::SetSpeed(speed),
            later_volume,
            later_position,
        ) == action_for(flags, Command::SetSpeed(speed), volume, position),
{
}

/// Typing the text of a speed twice leaves the flags as typing it once
/// leaves them.
pub proof fn lemma_speed_typed_twice_is_typed_once(flags: Flags, speed: Speed)
    ensures
        flags_after_all(
            flags,
            run(fresh(), keystrokes(speed.label_spec()) + keystrokes(speed.label_spec())).1,
        ) == flags_after_all(flags, run(fresh(), keystrokes(speed.label_spec())).1),
{
    lemma_typing_speed(speed);
    lemma_typing_speed_twice(speed);
    let once = run(fresh(), keystrokes(speed.label_spec())).1;
    let twice = run(
        fresh(),
        keystrokes(speed.label_spec()) + keystrokes(speed.label_spec()),
    ).1;
    assert(once.drop_last() =~= Seq::<Command>::empty());
    assert(flags_after_all(flags, Seq::<Command>::empty()) == flags);
    if twice.len() == 2 {
        assert(twice.drop_last() =~= once);
    }
}

/// Whatever the sink reports, a volume command asks for a volume between
/// silence and full volume.
pub proof fn lemma_volume_request_in_range(flags: Flags, command: Command, volume: nat, position: nat)
    requires
        command == Command::VolumeUp || command == Command::VolumeDown,
        volume <= 100,
    ensures
        action_for(flags, command, volume, position) matches ActionView::SetVolume(level)
            && level <= 100,
{
}

/// Seeking back from within the first five seconds asks for the start of
/// the track.
pub proof fn lemma_seek_back_stops_at_start(flags: Flags, volume: nat, position: nat)
    requires
        position < seek_step_nanos(),
    ensures
        action_for(flags, Command::SeekBack, volume, position) == ActionView::SeekTo(0),
{
}

/// The up arrow asks of the sink what the key `w` asks of it: with the same
/// flags and the same report from the sink, the same volume.
pub proof fn lemma_up_arrow_and_w_agree(state: KeyState, flags: Flags, volume: nat, position: nat)
    requires
        state.escape == Escape::Idle,
    ensures
        run(state, seq![ESC, BRACKET, ARROW_UP]).1 == seq![Command::VolumeUp],
        run(state, seq![KEY_LOUDER]).1 == seq![Command::VolumeUp],
        action_for(flags, Command::VolumeUp, volume, position) == ActionView::SetVolume(
            raised(volume),
        ),
        flags_after(flags, Command::VolumeUp) == flags,
{
    lemma_arrow_matches_key(state, ARROW_UP);
}

/// The playback flags, shared by the parts of the player.
///
/// The view is the three flags. Nothing sets `running` once it is cleared.
#[derive(Debug)]
pub struct Controls {
    running: bool,
    paused: bool,
    speed: Speed,
}

impl View for Controls {
    type V = Flags;

    closed spec fn view(&self) -> Flags {
        Flags { running: self.running, paused: self.paused, speed: self.speed }
    }
}

impl Controls {
    /// The flags of a session that has just begun.
    pub fn new() -> (controls: Controls)
        ensures
            controls@ == initial(),
    {
        Controls { running: true, paused: false, speed: Speed::Normal }
    }

    /// Whether the session is still on.
    pub fn is_running(&self) -> (running: bool)
        ensures
            running == self@.running,
    {
        self.running
    }

    /// Whether playback is held.
    pub fn is_paused(&self) -> (paused: bool)
        ensures
            paused == self@.paused,
    {
        self.paused
    }

    /// The speed that was last chosen.
    pub fn speed(&self) -> (speed: Speed)
        ensures
            speed == self@.speed,
    {
        self.speed
    }

    /// Ends the session.
    pub fn halt(&mut self)
        ensures
            final(self)@ == halted(old(self)@),
    {
        self.running = false;
    }

    /// Carries out `command` where it can be carried out, as [`Controls::apply`]
    /// does; where it cannot, changes nothing and returns nothing.
    pub fn try_apply(&mut self, command: Command, status: &SinkStatus) -> (action: Option<Action>)
        ensures
            match action {
                Some(asked) => {
                    &&& applicable(command, status.position@)
                    &&& final(self)@ == flags_after(old(self)@, command)
                    &&& asked@ == action_for(
                        old(self)@,
                        command,
                        status.volume@,
                        status.position@,
                    )
                },
                None => !applicable(command, status.position@) && final(self)@ == old(self)@,
            },
    {
        let possible: bool = match command {
            Command::SeekForward => status.position.can_advance(),
            _ => true,
        };
        if possible {
            Some(self.apply(command, status))
        } else {
            None
        }
    }

    /// Carries out `command`: updates the flags and returns what is to be
    /// asked of the sink, given what the sink last reported.
    pub fn apply(&mut self, command: Command, status: &SinkStatus) -> (action: Action)
        requires
            applicable(command, status.position@),
        ensures
            final(self)@ == flags_after(old(self)@, command),
            action@ == action_for(old(self)@, command, status.volume@, status.position@),
    {
        match command {
            Command::VolumeUp => Action::SetVolume(status.volume.raise()),
            Command::VolumeDown => Action::SetVolume(status.volume.lower()),
            Command::SeekBack => Action::SeekTo(status.position.rewind()),
            Command::SeekForward => Action::SeekTo(status.position.advance()),
            Command::TogglePause => {
                if self.paused {
                    self.paused = false;
                    Action::Resume
                } else {
                    self.paused = true;
                    Action::Pause
                }
            },
            Command::SetSpeed(speed) => {
                self.speed = speed;
                Action::SetSpeed(speed)
            },
            Command::Stop => {
                self.running = false;
                Action::Shutdown
            },
        }
    }
}

} // verus!
