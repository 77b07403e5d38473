//! The command interpreter: raw keyboard bytes in, transport commands out.
//!
//! Input arrives one byte at a time. Three-byte arrow-key sequences and the
//! single keys `w`, `s`, `a`, `d` act at once; Enter toggles play and pause;
//! every other byte is collected into a short buffer that is compared with
//! the known words after each byte.

use vstd::prelude::*;
use vstd::string::*;
use crate::speed::Speed;

verus! {

/// The byte that opens an arrow-key sequence.
pub const ESC: u8 = 0x1B;

/// Carriage return.
pub const CR: u8 = 0x0D;

/// Line feed.
pub const LF: u8 = 0x0A;

/// The byte `[`, the second of an arrow-key sequence.
pub const BRACKET: u8 = 0x5B;

/// The byte `A`, which ends the sequence of the up arrow.
pub const ARROW_UP: u8 = 0x41;

/// The byte `B`, which ends the sequence of the down arrow.
pub const ARROW_DOWN: u8 = 0x42;

/// The byte `C`, which ends the sequence of the right arrow.
pub const ARROW_RIGHT: u8 = 0x43;

/// The byte `D`, which ends the sequence of the left arrow.
pub const ARROW_LEFT: u8 = 0x44;

/// The key `w`: louder.
pub const KEY_LOUDER: u8 = 0x77;

/// The key `s`: quieter.
pub const KEY_QUIETER: u8 = 0x73;

/// The key `a`: back.
pub const KEY_BACK: u8 = 0x61;

/// The key `d`: ahead.
pub const KEY_AHEAD: u8 = 0x64;

/// The longest text that the buffer keeps, in characters.
pub const BUFFER_LIMIT: usize = 4;

/// What the listener asks of the player.
#[derive(Clone, Copy, Debug, PartialEq, Eq, Structural)]
pub enum Command {
    /// One step louder.
    VolumeUp,
    /// One step quieter.
    VolumeDown,
    /// Five seconds back.
    SeekBack,
    /// Five seconds ahead.
    SeekForward,
    /// Pause if playing, resume if paused.
    TogglePause,
    /// Play at the given speed from now on.
    SetSpeed(Speed),
    /// End the session.
    Stop,
}

/// How much of an arrow-key sequence has arrived.
#[derive(Clone, Copy, Debug, PartialEq, Eq, Structural)]
pub enum Escape {
    /// No sequence is open.
    Idle,
    /// The opening byte has arrived.
    Opened,
    /// The opening byte and the one after it, kept here, have arrived.
    Partial(u8),
}

/// The interpreter's state between two bytes.
pub struct KeyState {
    /// The characters typed so far that belong to no command yet.
    pub typed: Seq<char>,
    /// The arrow-key sequence that is open, if any.
    pub escape: Escape,
}

/// What the interpreter is in the middle of.
#[derive(Clone, Copy, Debug, PartialEq, Eq, Structural)]
pub enum Phase {
    /// Nothing: no sequence is open and the buffer is empty.
    Idle,
    /// An arrow-key sequence, of which this many bytes have arrived.
    EscapeSeq(u8),
    /// A word: no sequence is open and the buffer holds text.
    BufferingText,
}

/// What an interpreter in `state` is in the middle of. An open sequence
/// comes first: text typed before it waits in the buffer until the sequence
/// is complete.
pub open spec fn phase_of(state: KeyState) -> Phase {
    match state.escape {
        Escape::Opened => Phase::EscapeSeq(1),
        Escape::Partial(_) => Phase::EscapeSeq(2),
        Escape::Idle => if state.typed.len() == 0 {
            Phase::Idle
        } else {
            Phase::BufferingText
        },
    }
}

/// The state before any input.
pub open spec fn fresh() -> KeyState {
    KeyState { typed: Seq::empty(), escape: Escape::Idle }
}

/// What the last two bytes of a three-byte sequence stand for: `[` and then
/// `A`, `B`, `C` or `D` are the four arrow keys; anything else is nothing.
pub open spec fn arrow(second: u8, third: u8) -> Option<Command> {
    if second != BRACKET {
        None
    } else if third == ARROW_UP {
        Some(Command::VolumeUp)
    } else if third == ARROW_DOWN {
        Some(Command::VolumeDown)
    } else if third == ARROW_RIGHT {
        Some(Command::SeekForward)
    } else if third == ARROW_LEFT {
        Some(Command::SeekBack)
    } else {
        None
    }
}

/// The command of a key that acts at once: `w`, `s`, `a` or `d`.
pub open spec fn hotkey(byte: u8) -> Option<Command> {
    if byte == KEY_LOUDER {
        Some(Command::VolumeUp)
    } else if byte == KEY_QUIETER {
        Some(Command::VolumeDown)
    } else if byte == KEY_BACK {
        Some(Command::SeekBack)
    } else if byte == KEY_AHEAD {
        Some(Command::SeekForward)
    } else {
        None
    }
}

/// The command that `typed` spells, if it is one of the known words.
pub open spec fn word(typed: Seq<char>) -> Option<Command> {
    if typed == "stop"@ {
        Some(Command::Stop)
    } else if typed == Speed::Half.label_spec() {
        Some(Command::SetSpeed(Speed::Half))
    } else if typed == Speed::Normal.label_spec() {
        Some(Command::SetSpeed(Speed::Normal))
    } else if typed == Speed::OneAndHalf.label_spec() {
        Some(Command::SetSpeed(Speed::OneAndHalf))
    } else if typed == Speed::Double.label_spec() {
        Some(Command::SetSpeed(Speed::Double))
    } else {
        None
    }
}

/// Whether `c` is white space: the characters that Unicode marks so.
pub open spec fn is_space(c: char) -> bool {
    let code = c as u32;
    ||| 0x09 <= code <= 0x0D
    ||| code == 0x20
    ||| code == 0x85
    ||| code == 0xA0
    ||| code == 0x1680
    ||| 0x2000 <= code <= 0x200A
    ||| code == 0x2028
    ||| code == 0x2029
    ||| code == 0x202F
    ||| code == 0x205F
    ||| code == 0x3000
}

/// `text` without the white space at its two ends.
pub open spec fn trimmed(text: Seq<char>) -> Seq<char>
    decreases text.len(),
{
    if text.len() > 0 && is_space(text[0]) {
        trimmed(text.subrange(1, text.len() as int))
    } else if text.len() > 0 && is_space(text[text.len() - 1]) {
        trimmed(text.subrange(0, text.len() - 1))
    } else {
        text
    }
}

/// One byte of input: the state after it and the command it completes, if
/// it completes one.
pub open spec fn step(state: KeyState, byte: u8) -> (KeyState, Option<Command>) {
    let emptied = KeyState { typed: Seq::empty(), escape: state.escape };
    match state.escape {
        Escape::Opened => (KeyState { typed: state.typed, escape: Escape::Partial(byte) }, None),
        Escape::Partial(second) => (
            KeyState { typed: state.typed, escape: Escape::Idle },
            arrow(second, byte),
        ),
        Escape::Idle => if byte == ESC {
            (KeyState { typed: state.typed, escape: Escape::Opened }, None)
        } else if byte == CR || byte == LF {
            if state.typed.len() == 0 {
                (state, Some(Command::TogglePause))
            } else if trimmed(state.typed) == "stop"@ {
                (emptied, Some(Command::Stop))
            } else {
                (emptied, None)
            }
        } else if hotkey(byte).is_some() {
            (state, hotkey(byte))
        } else {
            let typed = state.typed.push(byte as char);
            if word(typed).is_some() {
                (emptied, word(typed))
            } else if typed.len() > BUFFER_LIMIT {
                (emptied, None)
            } else {
                (KeyState { typed: typed, escape: state.escape }, None)
            }
        },
    }
}

/// One reading of the input, which is a byte or, with `None`, the news
/// that the input has ended. The end of the input is a command to stop and
/// leaves the state as it is.
pub open spec fn step_input(state: KeyState, input: Option<u8>) -> (KeyState, Option<Command>) {
    match input {
        Some(byte) => step(state, byte),
        None => (state, Some(Command::Stop)),
    }
}

/// A whole run of input: the state after the last byte and the commands
/// completed on the way, in order.
pub open spec fn run(state: KeyState, bytes: Seq<u8>) -> (KeyState, Seq<Command>)
    decreases bytes.len(),
{
    if bytes.len() == 0 {
        (state, Seq::empty())
    } else {
        let (before, earlier) = run(state, bytes.drop_last());
        let (after, command) = step(before, bytes.last());
        match command {
            Some(c) => (after, earlier.push(c)),
            None => (after, earlier),
        }
    }
}

/// The command interpreter.
///
/// The view is its state between two bytes.
pub struct Interpreter {
    typed: Vec<char>,
    escape: Escape,
}

impl View for Interpreter {
    type V = KeyState;

    closed spec fn view(&self) -> KeyState {
        KeyState { typed: self.typed@, escape: self.escape }
    }
}

fn is_space_char(c: char) -> (yes: bool)
    ensures
        yes == is_space(c),
{
    let code: u32 = c as u32;
    (0x09 <= code && code <= 0x0D) || code == 0x20 || code == 0x85 || code == 0xA0 || code == 0x1680
        || (0x2000 <= code && code <= 0x200A) || code == 0x2028 || code == 0x2029 || code
        == 0x202F || code == 0x205F || code == 0x3000
}

fn decode_arrow(second: u8, third: u8) -> (command: Option<Command>)
    ensures
        command == arrow(second, third),
{
    if second != BRACKET {
        None
    } else if third == ARROW_UP {
        Some(Command::VolumeUp)
    } else if third == ARROW_DOWN {
        Some(Command::VolumeDown)
    } else if third == ARROW_RIGHT {
        Some(Command::SeekForward)
    } else if third == ARROW_LEFT {
        Some(Command::SeekBack)
    } else {
        None
    }
}

fn decode_hotkey(byte: u8) -> (command: Option<Command>)
    ensures
        command == hotkey(byte),
{
    if byte == KEY_LOUDER {
        Some(Command::VolumeUp)
    } else if byte == KEY_QUIETER {
        Some(Command::VolumeDown)
    } else if byte == KEY_BACK {
        Some(Command::SeekBack)
    } else if byte == KEY_AHEAD {
        Some(Command::SeekForward)
    } else {
        None
    }
}

/// Whether the characters of `typed` from `from` up to `to` are exactly `text`.
fn spells(typed: &Vec<char>, from: usize, to: usize, text: &str) -> (same: bool)
    requires
        from <= to <= typed.len(),
    ensures
        same == (typed@.subrange(from as int, to as int) == text@),
{
    let wanted: usize = text.unicode_len();
    if to - from != wanted {
        return false;
    }
    let mut i: usize = 0;
    while i < wanted
        invariant
            i <= wanted,
            wanted == text@.len(),
            from <= to <= typed.len(),
            to - from == wanted,
            forall|j: int| 0 <= j < i ==> typed@[from + j] == text@[j],
        decreases wanted - i,
    {
        if typed[from + i] != text.get_char(i) {
            assert(typed@.subrange(from as int, to as int)[i as int] != text@[i as int]);
            return false;
        }
        i += 1;
    }
    assert(typed@.subrange(from as int, to as int) =~= text@);
    true
}

fn recognize(typed: &Vec<char>) -> (command: Option<Command>)
    ensures
        command == word(typed@),
{
    let end: usize = typed.len();
    assert(typed@.subrange(0, end as int) =~= typed@);
    if spells(typed, 0, end, "stop") {
        Some(Command::Stop)
    } else if spells(typed, 0, end, Speed::Half.label()) {
        Some(Command::SetSpeed(Speed::Half))
    } else if spells(typed, 0, end, Speed::Normal.label()) {
        Some(Command::SetSpeed(Speed::Normal))
    } else if spells(typed, 0, end, Speed::OneAndHalf.label()) {
        Some(Command::SetSpeed(Speed::OneAndHalf))
    } else if spells(typed, 0, end, Speed::Double.label()) {
        Some(Command::SetSpeed(Speed::Double))
    } else {
        None
    }
}

/// Whether `typed` reads `stop` once the white space at its ends is gone.
fn reads_stop(typed: &Vec<char>) -> (yes: bool)
    ensures
        yes == (trimmed(typed@) == "stop"@),
{
    let mut start: usize = 0;
    let mut end: usize = typed.len();
    assert(typed@.subrange(0, end as int) =~= typed@);
    while start < end && is_space_char(typed[start])
        invariant
            start <= end == typed.len(),
            trimmed(typed@) == trimmed(typed@.subrange(start as int, end as int)),
        decreases end - start,
    {
        assert(typed@.subrange(start as int, end as int).subrange(1, end - start)
            =~= typed@.subrange(start + 1, end as int));
        start += 1;
    }
    while start < end && is_space_char(typed[end - 1])
        invariant
            start <= end <= typed.len(),
            start < end ==> !is_space(typed@[start as int]),
            trimmed(typed@) == trimmed(typed@.subrange(start as int, end as int)),
        decreases end - start,
    {
        assert(typed@.subrange(start as int, end as int).subrange(0, end - start - 1)
            =~= typed@.subrange(start as int, end - 1));
        end -= 1;
    }
    spells(typed, start, end, "stop")
}

impl Interpreter {
    /// An interpreter that has seen no input.
    pub fn new() -> (fresh_one: Interpreter)
        ensures
            fresh_one@ == fresh(),
    {
        Interpreter { typed: Vec::new(), escape: Escape::Idle }
    }

    /// How many characters wait in the buffer.
    pub fn buffered(&self) -> (count: usize)
        ensures
            count == self@.typed.len(),
    {
        self.typed.len()
    }

    /// What the interpreter is in the middle of.
    pub fn phase(&self) -> (phase: Phase)
        ensures
            phase == phase_of(self@),
    {
        match self.escape {
            Escape::Opened => Phase::EscapeSeq(1),
            Escape::Partial(_) => Phase::EscapeSeq(2),
            Escape::Idle => if self.typed.len() == 0 {
                Phase::Idle
            } else {
                Phase::BufferingText
            },
        }
    }

    /// Takes one reading of the input: a byte, or `None` once the input has
    /// ended, which ends the session.
    pub fn accept(&mut self, input: Option<u8>) -> (command: Option<Command>)
        ensures
            (final(self)@, command) == step_input(old(self)@, input),
    {
        match input {
            Some(byte) => self.feed(byte),
            None => Some(Command::Stop),
        }
    }

    /// Takes one byte of input and returns the command that it completes, if
    /// it completes one.
    pub fn feed(&mut self, byte: u8) -> (command: Option<Command>)
        ensures
            (final(self)@, command) == step(old(self)@, byte),
    {
        match self.escape {
            Escape::Opened => {
                self.escape = Escape::Partial(byte);
                None
            },
            Escape::Partial(second) => {
                self.escape = Escape::Idle;
                decode_arrow(second, byte)
            },
            Escape::Idle => {
                if byte == ESC {
                    self.escape = Escape::Opened;
                    None
                } else if byte == CR || byte == LF {
                    if self.typed.len() == 0 {
                        Some(Command::TogglePause)
                    } else {
                        let stop: bool = reads_stop(&self.typed);
                        self.typed.clear();
                        if stop {
                            Some(Command::Stop)
                        } else {
                            None
                        }
                    }
                } else {
                    let immediate: Option<Command> = decode_hotkey(byte);
                    if immediate.is_some() {
                        immediate
                    } else {
                        self.typed.push(byte as char);
                        let spelled: Option<Command> = recognize(&self.typed);
                        if spelled.is_some() || self.typed.len() > BUFFER_LIMIT {
                            self.typed.clear();
                        }
                        spelled
                    }
                }
            },
        }
    }
}

} // verus!
