//! The terminal renderer: the progress line and the spectrum bars as text.

use vstd::prelude::*;
use vstd::string::*;
use crate::monitor::length_of;
use crate::position::Position;
use crate::speed::Speed;
use crate::transport::{Action, ActionView, Controls, Flags};

verus! {

/// The width of the progress bar, in cells.
pub const BAR_CELLS: usize = 20;

/// The text that clears the terminal and puts the cursor at its top left.
pub const CLEAR_SCREEN: &'static str = "\x1b[2J\x1b[1;1H";

/// `count` times the character `glyph`.
pub open spec fn repeated(glyph: char, count: nat) -> Seq<char> {
    Seq::new(count, |i: int| glyph)
}

/// The character for the digit `d`.
pub open spec fn digit(d: nat) -> char
    recommends
        d < 10,
{
    "0123456789"@[d as int]
}

/// The number `n` in decimal, without leading zeros.
pub open spec fn decimal(n: nat) -> Seq<char>
    decreases n,
{
    if n < 10 {
        seq![digit(n)]
    } else {
        decimal(n / 10).push(digit(n % 10))
    }
}

/// The quotient of `numerator` by `denominator`, rounded to the nearest whole
/// number, a half rounded up.
pub open spec fn nearest(numerator: nat, denominator: nat) -> nat
    recommends
        denominator > 0,
{
    (2 * numerator + denominator) / (2 * denominator)
}

/// The rounded quotient lies within a half of the exact one: with `q` for
/// it, `q - 1/2 <= numerator / denominator < q + 1/2`.
pub proof fn lemma_nearest_is_within_half(numerator: nat, denominator: nat)
    requires
        denominator > 0,
    ensures
        (2 * nearest(numerator, denominator) - 1) * denominator <= 2 * numerator,
        2 * numerator < (2 * nearest(numerator, denominator) + 1) * denominator,
{
    let q = nearest(numerator, denominator);
    let top = 2 * numerator + denominator;
    let bottom = 2 * denominator;
    assert(top == bottom * (top / bottom) + top % bottom && 0 <= top % bottom < bottom) by {
        vstd::arithmetic::div_mod::lemma_fundamental_div_mod(top as int, bottom as int);
        vstd::arithmetic::div_mod::lemma_mod_bound(top as int, bottom as int);
    }
    assert(bottom * q == 2 * q * denominator) by (nonlinear_arith)
        requires
            bottom == 2 * denominator,
    ;
    assert((2 * q - 1) * denominator == 2 * q * denominator - denominator) by (nonlinear_arith);
    assert((2 * q + 1) * denominator == 2 * q * denominator + denominator) by (nonlinear_arith);
}

/// How many cells of the bar are filled for a track of known length: twenty
/// times the position over the time that the track takes at `speed`, rounded
/// to the nearest whole number, a half rounded up, and never more than the
/// bar holds. The track takes its length divided by the speed factor, and
/// the factor is half of `halves`, so the quotient that is rounded is
/// `10 * position * halves / length`. A track of no length fills none.
pub open spec fn filled_cells(position: nat, length: nat, speed: Speed) -> nat {
    if length == 0 {
        0
    } else {
        let cells = nearest(10 * position * speed.halves_spec(), length);
        if cells > BAR_CELLS {
            BAR_CELLS as nat
        } else {
            cells
        }
    }
}

/// How many cells are filled for a track of unknown length: the elapsed
/// whole seconds, starting over after twenty.
pub open spec fn elapsed_cells(position: nat) -> nat {
    (position / 1_000_000_000) % 21
}

/// The bar with its first `filled` cells filled.
pub open spec fn bar(filled: nat) -> Seq<char>
    recommends
        filled <= BAR_CELLS,
{
    repeated('=', filled) + repeated(' ', (BAR_CELLS - filled) as nat)
}

/// The word that says whether playback is held.
pub open spec fn status_word(paused: bool) -> Seq<char> {
    if paused {
        "\u{23F8} PAUSED"@
    } else {
        "\u{25B6} PLAYING"@
    }
}

/// The progress line: the status word, the speed, the bar, the elapsed
/// seconds and, where the length is known, the seconds of the whole track.
pub open spec fn progress_text(paused: bool, speed: Speed, position: nat, length: Option<nat>) -> Seq<
    char,
> {
    let head = status_word(paused) + " ["@ + speed.label_spec() + "x] ["@;
    let elapsed = decimal(position / 1_000_000_000);
    match length {
        Some(end) => head + bar(filled_cells(position, end, speed)) + "] "@ + elapsed + "s / "@
            + decimal(end / 1_000_000_000) + "s"@,
        None => head + bar(elapsed_cells(position)) + "] "@ + elapsed + "s"@,
    }
}

/// What one turn of the visualization loop draws: the progress line while
/// the session is on, nothing once it is over.
pub open spec fn frame_text(flags: Flags, position: nat, length: Option<nat>) -> Option<Seq<char>> {
    if flags.running {
        Some(progress_text(flags.paused, flags.speed, position, length))
    } else {
        None
    }
}

/// The spectrum view: one line for each width, of that many `=`, each line
/// ended by a line feed.
pub open spec fn spectrum_text(widths: Seq<usize>) -> Seq<char>
    decreases widths.len(),
{
    if widths.len() == 0 {
        Seq::empty()
    } else {
        spectrum_text(widths.drop_last()) + repeated('=', widths.last() as nat) + seq!['\n']
    }
}

/// What the terminal says about an action, for the two that it announces.
pub open spec fn notice_text(action: ActionView) -> Option<Seq<char>> {
    match action {
        ActionView::Resume => Some("\nResuming playback"@),
        ActionView::Pause => Some("\nPlayback Paused"@),
        _ => None,
    }
}

/// What is written to the terminal once an action has been carried out:
/// the screen is cleared, and an action that is announced has its notice
/// on a line of its own.
pub open spec fn feedback_text(action: ActionView) -> Seq<char> {
    match notice_text(action) {
        Some(said) => CLEAR_SCREEN@ + said + "\n"@,
        None => CLEAR_SCREEN@,
    }
}

/// The bar of a track of known length is empty at the start of the track,
/// full once the position has reached the time that the track takes at the
/// chosen speed, and never holds more than its twenty cells.
pub proof fn lemma_filled_cells_range(position: nat, length: nat, speed: Speed)
    ensures
        filled_cells(position, length, speed) <= BAR_CELLS,
        filled_cells(0, length, speed) == 0,
        length > 0 && position * speed.halves_spec() >= 2 * length ==> filled_cells(
            position,
            length,
            speed,
        ) == BAR_CELLS,
{
    let halves = speed.halves_spec();
    if length > 0 {
        assert(10 * 0nat * halves == 0) by (nonlinear_arith);
        assert(nearest(0, length) == 0) by (nonlinear_arith)
            requires
                length > 0,
                nearest(0, length) == (2 * 0nat + length) / (2 * length),
        ;
        if position * halves >= 2 * length {
            let scaled = 10 * position * halves;
            assert(scaled >= 20 * length) by (nonlinear_arith)
                requires
                    scaled == 10 * position * halves,
                    position * halves >= 2 * length,
            ;
            lemma_nearest_is_within_half(scaled, length);
            let cells = nearest(scaled, length);
            assert(cells >= 20) by (nonlinear_arith)
                requires
                    length > 0,
                    scaled >= 20 * length,
                    2 * scaled < (2 * cells + 1) * length,
            ;
        }
    }
}

/// The bar is always twenty cells wide.
pub proof fn lemma_bar_width(filled: nat)
    requires
        filled <= BAR_CELLS,
    ensures
        bar(filled).len() == BAR_CELLS,
{
}

fn push_repeated(out: &mut String, glyph: &str, count: usize)
    requires
        glyph@.len() == 1,
    ensures
        final(out)@ == old(out)@ + repeated(glyph@[0], count as nat),
{
    let mut done: usize = 0;
    assert(out@ =~= old(out)@ + repeated(glyph@[0], 0));
    while done < count
        invariant
            done <= count,
            glyph@.len() == 1,
            out@ == old(out)@ + repeated(glyph@[0], done as nat),
        decreases count - done,
    {
        out.append(glyph);
        done += 1;
        assert(out@ =~= old(out)@ + repeated(glyph@[0], done as nat));
    }
}

fn digit_text(d: u64) -> (text: &'static str)
    requires
        d < 10,
    ensures
        text@ == seq![digit(d as nat)],
{
    proof {
        reveal_strlit("0123456789");
        reveal_strlit("0");
        reveal_strlit("1");
        reveal_strlit("2");
        reveal_strlit("3");
        reveal_strlit("4");
        reveal_strlit("5");
        reveal_strlit("6");
        reveal_strlit("7");
        reveal_strlit("8");
        reveal_strlit("9");
    }
    let text: &'static str = if d == 0 {
        "0"
    } else if d == 1 {
        "1"
    } else if d == 2 {
        "2"
    } else if d == 3 {
        "3"
    } else if d == 4 {
        "4"
    } else if d == 5 {
        "5"
    } else if d == 6 {
        "6"
    } else if d == 7 {
        "7"
    } else if d == 8 {
        "8"
    } else {
        "9"
    };
    assert(text@ =~= seq![digit(d as nat)]);
    text
}

fn push_decimal(out: &mut String, n: u64)
    ensures
        final(out)@ == old(out)@ + decimal(n as nat),
    decreases n,
{
    if n >= 10 {
        push_decimal(out, n / 10);
    }
    out.append(digit_text(n % 10));
    assert(out@ =~= old(out)@ + decimal(n as nat));
}

/// How many cells of the bar are filled for a track of known length.
pub fn cells_for(position: &Position, length: &Position, speed: Speed) -> (cells: usize)
    ensures
        cells == filled_cells(position@, length@, speed),
        cells <= BAR_CELLS,
{
    let end: u128 = length.as_nanos();
    if end == 0 {
        return 0;
    }
    let at: u128 = position.as_nanos();
    let halves: u128 = speed.halves() as u128;
    let tenfold: u128 = 10 * at;
    assert(tenfold * halves <= tenfold * 4) by (nonlinear_arith)
        requires
            halves <= 4,
    ;
    assert(tenfold * halves == 10 * position@ * speed.halves_spec()) by (nonlinear_arith)
        requires
            tenfold == 10 * position@,
            halves == speed.halves_spec(),
    ;
    let scaled: u128 = tenfold * halves;
    let rounded: u128 = (2 * scaled + end) / (2 * end);
    if rounded > 20 {
        BAR_CELLS
    } else {
        rounded as usize
    }
}

/// The progress line for the given flags, position and track length.
pub fn progress_line(controls: &Controls, position: &Position, duration: &Option<Position>) -> (text:
    String)
    ensures
        text@ == progress_text(
            controls@.paused,
            controls@.speed,
            position@,
            length_of(*duration),
        ),
{
    let speed: Speed = controls.speed();
    let elapsed: u64 = position.secs();
    let mut text: String = String::new();
    if controls.is_paused() {
        text.append("\u{23F8} PAUSED");
    } else {
        text.append("\u{25B6} PLAYING");
    }
    text.append(" [");
    text.append(speed.label());
    text.append("x] [");
    let ghost head = text@;
    assert(head =~= status_word(controls@.paused) + " ["@ + speed.label_spec() + "x] ["@);
    proof {
        reveal_strlit("=");
        reveal_strlit(" ");
    }
    match duration {
        Some(length) => {
            let filled: usize = cells_for(position, length, speed);
            push_repeated(&mut text, "=", filled);
            push_repeated(&mut text, " ", BAR_CELLS - filled);
            assert(text@ =~= head + bar(filled as nat));
            text.append("] ");
            push_decimal(&mut text, elapsed);
            text.append("s / ");
            push_decimal(&mut text, length.secs());
            text.append("s");
        },
        None => {
            let filled: usize = (elapsed % 21) as usize;
            push_repeated(&mut text, "=", filled);
            push_repeated(&mut text, " ", BAR_CELLS - filled);
            assert(text@ =~= head + bar(filled as nat));
            text.append("] ");
            push_decimal(&mut text, elapsed);
            text.append("s");
        },
    }
    text
}

/// One turn of the visualization loop: the line to draw while the session
/// is on, and nothing once it is over.
pub fn next_frame(controls: &Controls, position: &Position, duration: &Option<Position>) -> (frame:
    Option<String>)
    ensures
        match frame {
            Some(text) => frame_text(controls@, position@, length_of(*duration)) == Some(text@),
            None => frame_text(controls@, position@, length_of(*duration)).is_none(),
        },
{
    if controls.is_running() {
        Some(progress_line(controls, position, duration))
    } else {
        None
    }
}

/// The spectrum view for bars of the given widths.
pub fn spectrum_rows(widths: &[usize]) -> (text: String)
    ensures
        text@ == spectrum_text(widths@),
{
    let mut text: String = String::new();
    let mut row: usize = 0;
    proof {
        reveal_strlit("=");
        reveal_strlit("\n");
    }
    assert(widths@.subrange(0, 0) =~= Seq::<usize>::empty());
    while row < widths.len()
        invariant
            row <= widths.len(),
            "="@ == seq!['='],
            "\n"@ == seq!['\n'],
            text@ == spectrum_text(widths@.subrange(0, row as int)),
        decreases widths.len() - row,
    {
        push_repeated(&mut text, "=", widths[row]);
        text.append("\n");
        row += 1;
        assert(widths@.subrange(0, row as int).drop_last() =~= widths@.subrange(0, row - 1));
    }
    assert(widths@.subrange(0, row as int) =~= widths@);
    text
}

/// What the terminal says about `action`, for the two that it announces.
pub fn notice(action: &Action) -> (text: Option<&'static str>)
    ensures
        match text {
            Some(said) => notice_text(action@) == Some(said@),
            None => notice_text(action@).is_none(),
        },
{
    match action {
        Action::Resume => Some("\nResuming playback"),
        Action::Pause => Some("\nPlayback Paused"),
        _ => None,
    }
}

/// What is to be written to the terminal once `action` has been carried out.
pub fn feedback(action: &Action) -> (text: String)
    ensures
        text@ == feedback_text(action@),
{
    let mut text: String = String::from_str(CLEAR_SCREEN);
    match notice(action) {
        Some(said) => {
            text.append(said);
            text.append("\n");
        },
        None => {},
    }
    text
}

} // verus!
