//! Turning a line typed by the player into a guess.

use vstd::prelude::*;
use vstd::std_specs::iter::IteratorSpec;

verus! {

/// The guess that ends the session. It is what a player types to leave, and
/// also what stands in for a line that is empty or could not be read.
pub const QUIT: char = '*';

/// Whether a line as it was read holds nothing before its end: no character
/// at all, or a line feed at once, or a carriage return and a line feed.
pub open spec fn is_blank(line: Seq<char>) -> bool {
    ||| line.len() == 0
    ||| line[0] == '\n'
    ||| (line.len() >= 2 && line[0] == '\r' && line[1] == '\n')
}

/// The guess that a line stands for: its first character, or [`QUIT`] for a
/// blank line. Only the first character counts; the rest of the line is
/// ignored, and upper and lower case are different guesses.
pub open spec fn guess_of(line: Seq<char>) -> char {
    if is_blank(line) {
        QUIT
    } else {
        line[0]
    }
}

/// The guess that `line` stands for. The line is taken as it was read, with
/// or without the line ending.
pub fn first_character(line: &str) -> (guess: char)
    ensures
        guess == guess_of(line@),
{
    let mut chars = line.chars();
    assert(chars.remaining() == line@);
    let first = chars.next();
    if first.is_none() {
        return QUIT;
    }
    let c = first.unwrap();
    if c == '\n' {
        return QUIT;
    }
    if c == '\r' {
        let second = chars.next();
        if second.is_some() && second.unwrap() == '\n' {
            return QUIT;
        }
    }
    c
}

/// The guess for one turn, from what reading a line gave: `Some` with the line
/// as read, or `None` where reading failed.
pub fn read_user_input_character(input: Option<&str>) -> (guess: char)
    ensures
        guess == match input {
            Some(line) => guess_of(line@),
            None => QUIT,
        },
{
    match input {
        Some(line) => first_character(line),
        None => QUIT,
    }
}

} // verus!
