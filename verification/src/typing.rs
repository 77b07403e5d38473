//! What typing does: the laws of the command interpreter.
//!
//! Everything here is stated over [`step`] and [`run`], the interpreter's
//! meaning, and so holds of every interpreter that runs.

use vstd::prelude::*;
use crate::keys::{
    arrow, fresh, hotkey, is_space, run, step, trimmed, word, Command, Escape, KeyState, ARROW_DOWN,
    ARROW_LEFT, ARROW_RIGHT, ARROW_UP, BRACKET, BUFFER_LIMIT, CR, ESC, KEY_AHEAD, KEY_BACK,
    KEY_LOUDER, KEY_QUIETER, LF,
};
use crate::speed::Speed;

verus! {

/// The bytes that typing `text` sends, one for each character.
pub open spec fn keystrokes(text: Seq<char>) -> Seq<u8> {
    text.map_values(|c: char| c as u8)
}

/// `commands` and, behind them, `command` if there is one.
pub open spec fn with_command(commands: Seq<Command>, command: Option<Command>) -> Seq<Command> {
    match command {
        Some(c) => commands.push(c),
        None => commands,
    }
}

/// Whether the buffer is within its limit.
pub open spec fn within_limit(state: KeyState) -> bool {
    state.typed.len() <= BUFFER_LIMIT
}

/// Whether `c` is one of the keys that act at once.
pub open spec fn is_hotkey(c: char) -> bool {
    c == 'w' || c == 's' || c == 'a' || c == 'd'
}

/// Whether none of the keys that act at once is among the typed characters.
pub open spec fn free_of_hotkeys(typed: Seq<char>) -> bool {
    forall|i: int| 0 <= i < typed.len() ==> !is_hotkey(#[trigger] typed[i])
}

/// The key that does what the arrow key ending in `third` does.
pub open spec fn key_for_arrow(third: u8) -> u8 {
    if third == ARROW_UP {
        KEY_LOUDER
    } else if third == ARROW_DOWN {
        KEY_QUIETER
    } else if third == ARROW_RIGHT {
        KEY_AHEAD
    } else {
        KEY_BACK
    }
}

/// The speed that typing the text of `speed` chooses. The text `1` is
/// complete as soon as it is typed, so the text `1.5` never is: its first
/// character chooses normal speed.
pub open spec fn typed_choice(speed: Speed) -> Speed {
    if speed == Speed::OneAndHalf {
        Speed::Normal
    } else {
        speed
    }
}

/// A run goes byte by byte: one more byte is one more step.
pub proof fn lemma_run_push(state: KeyState, bytes: Seq<u8>, byte: u8)
    ensures
        run(state, bytes.push(byte)) == (
            step(run(state, bytes).0, byte).0,
            with_command(run(state, bytes).1, step(run(state, bytes).0, byte).1),
        ),
{
    assert(bytes.push(byte).drop_last() =~= bytes);
}

/// Input may arrive in pieces: a run over two pieces, one after the other,
/// ends where the run over the second ends that starts where the first
/// ended, and completes the commands of both, in order.
pub proof fn lemma_run_concat(state: KeyState, first: Seq<u8>, second: Seq<u8>)
    ensures
        run(state, first + second).0 == run(run(state, first).0, second).0,
        run(state, first + second).1 == run(state, first).1 + run(run(state, first).0, second).1,
    decreases second.len(),
{
    if second.len() == 0 {
        assert(first + second =~= first);
        assert(run(state, first).1 + Seq::<Command>::empty() =~= run(state, first).1);
    } else {
        let shorter = second.drop_last();
        lemma_run_concat(state, first, shorter);
        assert((first + second).drop_last() =~= first + shorter);
        let mid = run(state, first).0;
        let (before, earlier) = run(mid, shorter);
        let command = step(before, second.last()).1;
        match command {
            Some(c) => {
                assert((run(state, first).1 + earlier).push(c) =~= run(state, first).1
                    + earlier.push(c));
            },
            None => {},
        }
    }
}

/// A buffer within its limit stays within it, whatever byte comes next.
pub proof fn lemma_buffer_stays_within_limit(state: KeyState, byte: u8)
    requires
        within_limit(state),
    ensures
        within_limit(step(state, byte).0),
{
}

/// The buffer of an interpreter that began fresh never exceeds its limit.
pub proof fn lemma_buffer_within_limit_after_run(bytes: Seq<u8>)
    ensures
        within_limit(run(fresh(), bytes).0),
    decreases bytes.len(),
{
    if bytes.len() > 0 {
        lemma_buffer_within_limit_after_run(bytes.drop_last());
        lemma_buffer_stays_within_limit(run(fresh(), bytes.drop_last()).0, bytes.last());
    }
}

/// A byte that completes a word, ends a line or overflows the buffer leaves
/// the buffer empty.
pub proof fn lemma_buffer_cleared(state: KeyState, byte: u8)
    requires
        state.escape == Escape::Idle,
        byte != ESC,
        hotkey(byte).is_none(),
    ensures
        byte == CR || byte == LF ==> step(state, byte).0.typed.len() == 0,
        word(state.typed.push(byte as char)).is_some() ==> step(state, byte).0.typed.len() == 0,
        state.typed.len() >= BUFFER_LIMIT ==> step(state, byte).0.typed.len() == 0,
{
}

/// A three-byte sequence leaves the interpreter as it found it, whatever its
/// last two bytes are: it completes the command of an arrow key or, where it
/// is no arrow key, nothing at all.
pub proof fn lemma_sequence_leaves_state(state: KeyState, second: u8, third: u8)
    requires
        state.escape == Escape::Idle,
    ensures
        run(state, seq![ESC, second, third]).0 == state,
        run(state, seq![ESC, second, third]).1 == match arrow(second, third) {
            Some(command) => seq![command],
            None => Seq::<Command>::empty(),
        },
{
    let sequence = seq![ESC, second, third];
    let opened = seq![ESC];
    let partial = seq![ESC, second];
    let none = Seq::<u8>::empty();
    assert(sequence.drop_last() =~= partial);
    assert(partial.drop_last() =~= opened);
    assert(opened.drop_last() =~= none);
    assert(run(state, none) == (state, Seq::<Command>::empty()));
    assert(run(state, opened) == (
        KeyState { typed: state.typed, escape: Escape::Opened },
        Seq::<Command>::empty(),
    ));
    assert(run(state, partial) == (
        KeyState { typed: state.typed, escape: Escape::Partial(second) },
        Seq::<Command>::empty(),
    ));
    assert(run(state, sequence).0 == state);
    match arrow(second, third) {
        Some(command) => {
            assert(run(state, sequence).1 =~= seq![command]);
        },
        None => {},
    }
}

/// An arrow key does what its letter key does: the three bytes of the
/// sequence for up, down, right or left leave the interpreter as the single
/// byte `w`, `s`, `d` or `a` leaves it, and complete the same command.
pub proof fn lemma_arrow_matches_key(state: KeyState, third: u8)
    requires
        state.escape == Escape::Idle,
        ARROW_UP <= third <= ARROW_LEFT,
    ensures
        run(state, seq![ESC, BRACKET, third]) == run(state, seq![key_for_arrow(third)]),
        run(state, seq![key_for_arrow(third)]) == (state, seq![hotkey(key_for_arrow(third)).unwrap()]),
{
    lemma_sequence_leaves_state(state, BRACKET, third);
    let command = hotkey(key_for_arrow(third)).unwrap();
    assert(arrow(BRACKET, third) == Some(command));
    let key = seq![key_for_arrow(third)];
    assert(key.drop_last() =~= Seq::<u8>::empty());
    assert(run(state, Seq::<u8>::empty()) == (state, Seq::<Command>::empty()));
    assert(run(state, key).0 == state);
    assert(run(state, key).1 =~= seq![command]);
}

/// The five words, character by character.
proof fn lemma_words_spelled()
    ensures
        "stop"@ == seq!['s', 't', 'o', 'p'],
        "0.5"@ == seq!['0', '.', '5'],
        "1"@ == seq!['1'],
        "1.5"@ == seq!['1', '.', '5'],
        "2"@ == seq!['2'],
{
    reveal_strlit("stop");
    reveal_strlit("0.5");
    reveal_strlit("1");
    reveal_strlit("1.5");
    reveal_strlit("2");
    assert("stop"@ =~= seq!['s', 't', 'o', 'p']);
    assert("0.5"@ =~= seq!['0', '.', '5']);
    assert("1"@ =~= seq!['1']);
    assert("1.5"@ =~= seq!['1', '.', '5']);
    assert("2"@ =~= seq!['2']);
}

/// A word has one, three or four characters, and its first character tells
/// which of these: `s` begins the word of four, `0` one of three, `1` one
/// of three or of one, and `2` one of one.
pub proof fn lemma_word_shape(typed: Seq<char>)
    requires
        word(typed).is_some(),
    ensures
        typed.len() == 4 && typed[0] == 's' || typed.len() == 3 && (typed[0] == '0' || typed[0]
            == '1') || typed.len() == 1 && (typed[0] == '1' || typed[0] == '2'),
{
    lemma_words_spelled();
}

proof fn lemma_typing_half()
    ensures
        run(fresh(), keystrokes("0.5"@)) == (fresh(), seq![Command::SetSpeed(Speed::Half)]),
{
    lemma_words_spelled();
    let none = Seq::<u8>::empty();
    let typed = Seq::<char>::empty();
    assert(keystrokes("0.5"@) =~= none.push(0x30).push(0x2E).push(0x35));
    lemma_run_push(fresh(), none, 0x30);
    lemma_run_push(fresh(), none.push(0x30), 0x2E);
    lemma_run_push(fresh(), none.push(0x30).push(0x2E), 0x35);
    assert(run(fresh(), none) == (fresh(), Seq::<Command>::empty()));
    assert(word(typed.push('0')).is_none()) by {
        if word(typed.push('0')).is_some() {
            lemma_word_shape(typed.push('0'));
        }
    }
    assert(word(typed.push('0').push('.')).is_none()) by {
        if word(typed.push('0').push('.')).is_some() {
            lemma_word_shape(typed.push('0').push('.'));
        }
    }
    assert(typed.push('0').push('.').push('5') =~= "0.5"@);
    assert(run(fresh(), none.push(0x30)).0 == KeyState {
        typed: typed.push('0'),
        escape: Escape::Idle,
    });
    assert(run(fresh(), none.push(0x30).push(0x2E)).0 == KeyState {
        typed: typed.push('0').push('.'),
        escape: Escape::Idle,
    });
    assert(word("0.5"@) == Some(Command::SetSpeed(Speed::Half)));
    assert(run(fresh(), keystrokes("0.5"@)).1 =~= seq![Command::SetSpeed(Speed::Half)]);
}

proof fn lemma_typing_one_key(byte: u8, speed: Speed)
    requires
        (byte == 0x31 && speed == Speed::Normal) || (byte == 0x32 && speed == Speed::Double),
    ensures
        run(fresh(), seq![byte]) == (fresh(), seq![Command::SetSpeed(speed)]),
{
    lemma_words_spelled();
    let none = Seq::<u8>::empty();
    assert(seq![byte] =~= none.push(byte));
    lemma_run_push(fresh(), none, byte);
    let typed = Seq::<char>::empty().push(byte as char);
    assert(typed =~= speed.label_spec());
    assert(typed[0] == (byte as char));
    assert(word(typed) == Some(Command::SetSpeed(speed)));
    assert(run(fresh(), none) == (fresh(), Seq::<Command>::empty()));
    assert(run(fresh(), seq![byte]).1 =~= seq![Command::SetSpeed(speed)]);
}

/// The bytes `.` and `5` on a buffer that is empty, or that reads `.51`.
proof fn lemma_typing_dot_five(state: KeyState, tail: Seq<char>)
    requires
        state == (KeyState { typed: tail, escape: Escape::Idle }),
        tail.len() == 0 || tail == seq!['.', '5', '1'],
    ensures
        run(state, seq![0x2E, 0x35]).1 == Seq::<Command>::empty(),
        run(state, seq![0x2E, 0x35]).0.escape == Escape::Idle,
        tail.len() == 0 ==> run(state, seq![0x2E, 0x35]).0.typed == seq!['.', '5'],
        tail.len() != 0 ==> run(state, seq![0x2E, 0x35]).0.typed == Seq::<char>::empty(),
{
    let none = Seq::<u8>::empty();
    assert(seq![0x2Eu8, 0x35u8] =~= none.push(0x2E).push(0x35));
    lemma_run_push(state, none, 0x2E);
    lemma_run_push(state, none.push(0x2E), 0x35);
    assert(run(state, none) == (state, Seq::<Command>::empty()));
    assert(word(tail.push('.')).is_none()) by {
        if word(tail.push('.')).is_some() {
            lemma_word_shape(tail.push('.'));
        }
    }
    assert(run(state, none.push(0x2E)).0 == KeyState {
        typed: tail.push('.'),
        escape: Escape::Idle,
    });
    assert(word(tail.push('.').push('5')).is_none()) by {
        if word(tail.push('.').push('5')).is_some() {
            lemma_word_shape(tail.push('.').push('5'));
        }
    }
    if tail.len() == 0 {
        assert(tail.push('.').push('5') =~= seq!['.', '5']);
    }
}

/// Typing the text of a speed on a fresh interpreter chooses one speed and
/// completes nothing else. Every text but `1.5` chooses its own speed and
/// leaves the interpreter fresh; `1.5` chooses normal speed with its first
/// character and leaves `.5` in the buffer.
pub proof fn lemma_typing_speed(speed: Speed)
    ensures
        run(fresh(), keystrokes(speed.label_spec())).1 == seq![
            Command::SetSpeed(typed_choice(speed)),
        ],
        run(fresh(), keystrokes(speed.label_spec())).0 == if speed == Speed::OneAndHalf {
            KeyState { typed: seq!['.', '5'], escape: Escape::Idle }
        } else {
            fresh()
        },
{
    lemma_words_spelled();
    match speed {
        Speed::Half => {
            lemma_typing_half();
        },
        Speed::Normal => {
            assert(keystrokes("1"@) =~= seq![0x31u8]);
            lemma_typing_one_key(0x31, Speed::Normal);
        },
        Speed::Double => {
            assert(keystrokes("2"@) =~= seq![0x32u8]);
            lemma_typing_one_key(0x32, Speed::Double);
        },
        Speed::OneAndHalf => {
            assert(keystrokes("1.5"@) =~= seq![0x31u8] + seq![0x2Eu8, 0x35u8]);
            lemma_typing_one_key(0x31, Speed::Normal);
            lemma_run_concat(fresh(), seq![0x31u8], seq![0x2Eu8, 0x35u8]);
            lemma_typing_dot_five(fresh(), Seq::<char>::empty());
            assert(seq![Command::SetSpeed(Speed::Normal)] + Seq::<Command>::empty() =~= seq![
                Command::SetSpeed(Speed::Normal),
            ]);
        },
    }
}

/// Typing the text of a speed twice chooses the speed that typing it once
/// chooses, once or twice over, and completes nothing else.
pub proof fn lemma_typing_speed_twice(speed: Speed)
    ensures
        run(fresh(), keystrokes(speed.label_spec()) + keystrokes(speed.label_spec())).1 == if speed
            == Speed::OneAndHalf {
            seq![Command::SetSpeed(typed_choice(speed))]
        } else {
            seq![Command::SetSpeed(typed_choice(speed)), Command::SetSpeed(typed_choice(speed))]
        },
{
    let once = keystrokes(speed.label_spec());
    lemma_typing_speed(speed);
    lemma_run_concat(fresh(), once, once);
    if speed == Speed::OneAndHalf {
        lemma_words_spelled();
        let tail = KeyState { typed: seq!['.', '5'], escape: Escape::Idle };
        assert(once =~= seq![0x31u8] + seq![0x2Eu8, 0x35u8]);
        lemma_run_concat(tail, seq![0x31u8], seq![0x2Eu8, 0x35u8]);
        let none = Seq::<u8>::empty();
        assert(seq![0x31u8] =~= none.push(0x31));
        lemma_run_push(tail, none, 0x31);
        assert(run(tail, none) == (tail, Seq::<Command>::empty()));
        let grown = seq!['.', '5'].push('1');
        assert(grown =~= seq!['.', '5', '1']);
        assert(word(grown).is_none()) by {
            if word(grown).is_some() {
                lemma_word_shape(grown);
            }
        }
        assert(run(tail, seq![0x31u8]) == (
            KeyState { typed: grown, escape: Escape::Idle },
            Seq::<Command>::empty(),
        ));
        lemma_typing_dot_five(KeyState { typed: grown, escape: Escape::Idle }, grown);
        assert(run(tail, once).1 =~= Seq::<Command>::empty());
        assert(seq![Command::SetSpeed(Speed::Normal)] + Seq::<Command>::empty() =~= seq![
            Command::SetSpeed(Speed::Normal),
        ]);
    } else {
        assert(seq![Command::SetSpeed(speed)] + seq![Command::SetSpeed(speed)] =~= seq![
            Command::SetSpeed(speed),
            Command::SetSpeed(speed),
        ]);
    }
}

/// Where the buffer reads `sto` and no arrow-key sequence is open, the byte
/// `p` completes the word: the command is to stop, and the buffer is empty
/// afterwards.
pub proof fn lemma_stop_completes(state: KeyState)
    requires
        state.escape == Escape::Idle,
        state.typed == "sto"@,
    ensures
        step(state, 0x70) == (KeyState { typed: Seq::empty(), escape: Escape::Idle }, Some(Command::Stop)),
{
    reveal_strlit("sto");
    reveal_strlit("stop");
    assert(state.typed.push(0x70u8 as char) =~= "stop"@);
}

/// What is left of a text after trimming is the stretch of it that begins
/// at its first character that is no white space and ends with its last:
/// everything outside the stretch is white space, and the stretch, unless it
/// is empty, begins and ends with something else.
pub proof fn lemma_trimmed_is_stretch(text: Seq<char>) -> (bounds: (int, int))
    ensures
        0 <= bounds.0 <= bounds.1 <= text.len(),
        trimmed(text) == text.subrange(bounds.0, bounds.1),
        forall|i: int| 0 <= i < bounds.0 || bounds.1 <= i < text.len() ==> is_space(#[trigger] text[i]),
        bounds.0 < bounds.1 ==> !is_space(text[bounds.0]) && !is_space(text[bounds.1 - 1]),
    decreases text.len(),
{
    if text.len() > 0 && is_space(text[0]) {
        let rest = text.subrange(1, text.len() as int);
        let inner = lemma_trimmed_is_stretch(rest);
        assert(rest.subrange(inner.0, inner.1) =~= text.subrange(inner.0 + 1, inner.1 + 1));
        assert forall|i: int| 0 <= i < inner.0 + 1 || inner.1 + 1 <= i < text.len() implies is_space(
            #[trigger] text[i],
        ) by {
            if i > 0 {
                assert(text[i] == rest[i - 1]);
            }
        }
        if inner.0 < inner.1 {
            assert(text[inner.0 + 1] == rest[inner.0]);
            assert(text[inner.1] == rest[inner.1 - 1]);
        }
        (inner.0 + 1, inner.1 + 1)
    } else if text.len() > 0 && is_space(text[text.len() - 1]) {
        let rest = text.subrange(0, text.len() - 1);
        let inner = lemma_trimmed_is_stretch(rest);
        assert(rest.subrange(inner.0, inner.1) =~= text.subrange(inner.0, inner.1));
        assert forall|i: int| 0 <= i < inner.0 || inner.1 <= i < text.len() implies is_space(
            #[trigger] text[i],
        ) by {
            if i < text.len() - 1 {
                assert(text[i] == rest[i]);
            }
        }
        if inner.0 < inner.1 {
            assert(text[inner.0] == rest[inner.0]);
            assert(text[inner.1 - 1] == rest[inner.1 - 1]);
        }
        inner
    } else {
        assert(text.subrange(0, text.len() as int) =~= text);
        (0, text.len() as int)
    }
}

/// The keys that act at once never reach the buffer, so a buffer without
/// them stays without them; and since `stop` has an `s`, no byte then
/// completes the command to stop.
pub proof fn lemma_hotkeys_stay_out(state: KeyState, byte: u8)
    requires
        free_of_hotkeys(state.typed),
    ensures
        free_of_hotkeys(step(state, byte).0.typed),
        step(state, byte).1 != Some(Command::Stop),
{
    reveal_strlit("stop");
    let stop = "stop"@;
    assert(is_hotkey(stop[0]));
    if state.escape == Escape::Idle && byte != ESC {
        if byte == CR || byte == LF {
            if trimmed(state.typed) == stop {
                let bounds = lemma_trimmed_is_stretch(state.typed);
                assert(state.typed.subrange(bounds.0, bounds.1).len() == 4);
                assert(state.typed[bounds.0] == state.typed.subrange(bounds.0, bounds.1)[0]);
            }
        } else if hotkey(byte).is_none() {
            let typed = state.typed.push(byte as char);
            assert(!is_hotkey(byte as char));
            assert forall|i: int| 0 <= i < typed.len() implies !is_hotkey(#[trigger] typed[i]) by {
                if i < state.typed.len() {
                    assert(typed[i] == state.typed[i]);
                }
            }
            assert(typed != stop) by {
                if typed == stop {
                    assert(is_hotkey(typed[0]));
                }
            }
        }
    }
}

/// From a fresh interpreter no input whatever completes the command to
/// stop: a session ends when its track does, or when its input does.
pub proof fn lemma_keyboard_never_stops(bytes: Seq<u8>)
    ensures
        free_of_hotkeys(run(fresh(), bytes).0.typed),
        !run(fresh(), bytes).1.contains(Command::Stop),
    decreases bytes.len(),
{
    if bytes.len() > 0 {
        lemma_keyboard_never_stops(bytes.drop_last());
        let (before, earlier) = run(fresh(), bytes.drop_last());
        lemma_hotkeys_stay_out(before, bytes.last());
        let command = step(before, bytes.last()).1;
        if command.is_some() {
            let all = earlier.push(command.unwrap());
            assert forall|i: int| 0 <= i < all.len() implies all[i] != Command::Stop by {
                if i < earlier.len() {
                    assert(earlier.contains(earlier[i]));
                }
            }
        }
    }
}

} // verus!
