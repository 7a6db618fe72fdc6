//! How the board is shown to the player.

use crate::board::Letter;
use crate::game::Stage;
use vstd::prelude::*;

verus! {

/// What greets the player.
pub const WELCOME: &'static str = "Welcome to Hangman!";

/// What asks for the next guess.
pub const PROMPT: &'static str = "Please enter a letter to guess:";

/// What ends every session, however it went.
pub const GOODBYE: &'static str = "Goodbye!";

/// What stands in for a letter that is still hidden.
pub const HIDDEN_GLYPH: char = '_';

/// What the player sees of one letter: its character once uncovered, the
/// placeholder before.
pub open spec fn glyph(letter: Letter) -> char {
    if letter.revealed {
        letter.character
    } else {
        HIDDEN_GLYPH
    }
}

/// The cells of the progress line: for each letter in turn one space and
/// its glyph. Two neighbouring glyphs are thus one space apart.
pub open spec fn cells(board: Seq<Letter>) -> Seq<char>
    decreases board.len(),
{
    if board.len() == 0 {
        Seq::empty()
    } else {
        cells(board.drop_last()) + seq![' ', glyph(board.last())]
    }
}

/// What closes the progress line: one space after the last glyph, and nothing
/// where the board has no letter.
pub open spec fn line_end(board: Seq<Letter>) -> Seq<char> {
    if board.len() == 0 {
        Seq::empty()
    } else {
        seq![' ']
    }
}

/// The progress line: the label `Progress:`, the board's cells, and the
/// line's end. An empty board gives the bare label.
pub open spec fn progress_text(board: Seq<Letter>) -> Seq<char> {
    "Progress:"@ + cells(board) + line_end(board)
}

/// The glyph of one letter.
pub fn shown(letter: &Letter) -> (c: char)
    ensures
        c == glyph(*letter),
{
    if letter.revealed {
        letter.character
    } else {
        HIDDEN_GLYPH
    }
}

/// Renders the board as the line that is printed before each guess, such as
/// `Progress: c _ t ` for "cat" with the `a` still hidden.
pub fn progress_line(letters: &Vec<Letter>) -> (line: String)
    ensures
        line@ == progress_text(letters@),
{
    let mut line = "Progress:".to_owned();
    let mut i: usize = 0;
    while i < letters.len()
        invariant
            i <= letters@.len(),
            line@ == "Progress:"@ + cells(letters@.take(i as int)),
        decreases letters.len() - i,
    {
        let c = shown(&letters[i]);
        line.push(' ');
        line.push(c);
        proof {
            let next = letters@.take(i + 1);
            assert(next.drop_last() =~= letters@.take(i as int));
            assert(next.last() == letters@[i as int]);
            assert(line@ =~= "Progress:"@ + cells(next));
        }
        i += 1;
    }
    proof {
        assert(letters@.take(i as int) =~= letters@);
    }
    if letters.len() > 0 {
        line.push(' ');
    }
    assert(line@ =~= progress_text(letters@));
    line
}

/// The ten digits.
pub open spec fn digits() -> Seq<char> {
    seq!['0', '1', '2', '3', '4', '5', '6', '7', '8', '9']
}

/// A number in decimal, without leading zeros.
pub open spec fn decimal(n: nat) -> Seq<char>
    decreases n,
{
    if n < 10 {
        seq![digits()[n as int]]
    } else {
        decimal(n / 10).push(digits()[(n % 10) as int])
    }
}

/// The line that tells the player how many wrong guesses are left.
pub open spec fn turns_text(turns_left: nat) -> Seq<char> {
    "You have "@ + decimal(turns_left) + " turns left."@
}

/// The character of a digit.
fn digit(d: u8) -> (c: char)
    requires
        d < 10,
    ensures
        c == digits()[d as int],
{
    match d {
        0 => '0',
        1 => '1',
        2 => '2',
        3 => '3',
        4 => '4',
        5 => '5',
        6 => '6',
        7 => '7',
        8 => '8',
        _ => '9',
    }
}

/// Renders the attempts that are left as the line that opens each turn, such
/// as `You have 5 turns left.`
pub fn turns_line(turns_left: u8) -> (line: String)
    ensures
        line@ == turns_text(turns_left as nat),
{
    let mut line = "You have ".to_owned();
    let ghost label = line@;
    if turns_left >= 100 {
        line.push(digit(turns_left / 100));
    }
    if turns_left >= 10 {
        line.push(digit(turns_left / 10 % 10));
    }
    line.push(digit(turns_left % 10));
    proof {
        let n = turns_left as nat;
        reveal_with_fuel(decimal, 3);
        assert(line@ =~= label + decimal(n));
    }
    line.append(" turns left.");
    line
}

/// What is said when a session reaches `stage`: something for a game that is
/// won or lost, nothing otherwise.
pub open spec fn closing_text(stage: Stage) -> Option<Seq<char>> {
    match stage {
        Stage::Won => Some("Congrats! You won!"@),
        Stage::Lost => Some("You lost!"@),
        _ => None,
    }
}

/// The line that tells the player how the game ended, if it has.
pub fn closing_line(stage: Stage) -> (line: Option<&'static str>)
    ensures
        match line {
            Some(text) => closing_text(stage) == Some(text@),
            None => closing_text(stage) is None,
        },
{
    match stage {
        Stage::Won => Some("Congrats! You won!"),
        Stage::Lost => Some("You lost!"),
        _ => None,
    }
}

} // verus!
