//! The board: the secret word as a row of letters, each hidden or uncovered.

use vstd::prelude::*;

verus! {

/// One position of the secret word.
#[derive(Clone, Copy, Debug, PartialEq, Eq, Structural)]
pub struct Letter {
    /// The character at this position.
    pub character: char,
    /// Whether the player has uncovered it.
    pub revealed: bool,
}

impl Letter {
    /// The letter `character`, not uncovered yet.
    pub open spec fn spec_hidden(character: char) -> Letter {
        Letter { character, revealed: false }
    }

    /// The letter `character`, not uncovered yet.
    #[verifier::when_used_as_spec(spec_hidden)]
    pub fn hidden(character: char) -> (letter: Letter)
        ensures
            letter == Letter::spec_hidden(character),
    {
        Letter { character, revealed: false }
    }

    /// This letter after the player has guessed `guess`: uncovered if the
    /// guess is its character, unchanged otherwise. The comparison is exact,
    /// so an upper-case guess does not uncover a lower-case letter.
    pub open spec fn after_guess(self, guess: char) -> Letter {
        if self.character == guess {
            Letter { character: self.character, revealed: true }
        } else {
            self
        }
    }
}

/// The board of a fresh game: one hidden letter per character of `word`, in
/// the word's order, repeated characters included.
pub open spec fn hidden_board(word: Seq<char>) -> Seq<Letter> {
    Seq::new(word.len(), |i: int| Letter::hidden(word[i]))
}

/// The board after the player has guessed `guess`: every letter equal to the
/// guess is uncovered, every other letter is as it was.
pub open spec fn uncovered(board: Seq<Letter>, guess: char) -> Seq<Letter> {
    Seq::new(board.len(), |i: int| board[i].after_guess(guess))
}

/// Whether `guess` is the character of some letter of the board, hidden or not.
pub open spec fn occurs(board: Seq<Letter>, guess: char) -> bool {
    exists|i: int| 0 <= i < board.len() && (#[trigger] board[i]).character == guess
}

/// Whether every letter of the board is uncovered. An empty board counts as
/// fully uncovered.
pub open spec fn all_revealed(board: Seq<Letter>) -> bool {
    forall|i: int| 0 <= i < board.len() ==> (#[trigger] board[i]).revealed
}

/// Lays `word` out as a board on which nothing is uncovered yet.
pub fn create_letters(word: &String) -> (letters: Vec<Letter>)
    ensures
        letters@ == hidden_board(word@),
        letters@.len() == word@.len(),
        forall|i: int|
            0 <= i < word@.len() ==> (#[trigger] letters@[i]).character == word@[i]
                && !letters@[i].revealed,
{
    let mut letters: Vec<Letter> = Vec::new();
    for c in it: word.as_str().chars()
        invariant
            it.seq() == word@,
            letters@.len() == it.index(),
            forall|i: int|
                0 <= i < it.index() ==> (#[trigger] letters@[i]).character == word@[i]
                    && !letters@[i].revealed,
    {
        letters.push(Letter::hidden(c));
    }
    assert(letters@ =~= hidden_board(word@));
    letters
}

/// Uncovers every letter whose character is `guess` and reports whether the
/// guess occurs in the word at all. Letters that were uncovered before stay
/// so, and a guess that occurs nowhere leaves the board as it was.
pub fn uncover(letters: &mut Vec<Letter>, guess: char) -> (found: bool)
    ensures
        final(letters)@ == uncovered(old(letters)@, guess),
        final(letters)@.len() == old(letters)@.len(),
        found == occurs(old(letters)@, guess),
        !found ==> final(letters)@ == old(letters)@,
{
    let ghost before = letters@;
    let mut found = false;
    let mut i: usize = 0;
    while i < letters.len()
        invariant
            i <= letters@.len(),
            letters@.len() == before.len(),
            forall|j: int| 0 <= j < i ==> #[trigger] letters@[j] == before[j].after_guess(guess),
            forall|j: int| i <= j < before.len() ==> #[trigger] letters@[j] == before[j],
            found <==> exists|j: int| 0 <= j < i && (#[trigger] before[j]).character == guess,
        decreases letters.len() - i,
    {
        let letter = letters[i];
        if letter.character == guess {
            letters.set(i, Letter { character: letter.character, revealed: true });
            found = true;
        }
        i += 1;
    }
    proof {
        assert(letters@ =~= uncovered(before, guess));
        if !found {
            assert(letters@ =~= before);
        }
    }
    found
}

/// Whether every letter of the board is uncovered.
pub fn is_complete(letters: &Vec<Letter>) -> (complete: bool)
    ensures
        complete == all_revealed(letters@),
{
    let mut i: usize = 0;
    while i < letters.len()
        invariant
            i <= letters@.len(),
            forall|j: int| 0 <= j < i ==> (#[trigger] letters@[j]).revealed,
        decreases letters.len() - i,
    {
        if !letters[i].revealed {
            return false;
        }
        i += 1;
    }
    true
}

/// Whether some letter equal to `guess` is still hidden.
pub open spec fn hides(board: Seq<Letter>, guess: char) -> bool {
    exists|i: int|
        0 <= i < board.len() && (#[trigger] board[i]).character == guess && !board[i].revealed
}

/// A guess changes the board exactly when it finds a hidden letter. Every
/// letter that differs afterwards is one that the guess has uncovered.
pub proof fn lemma_changed_iff_hidden_match(board: Seq<Letter>, guess: char)
    ensures
        uncovered(board, guess) != board <==> hides(board, guess),
        uncovered(board, guess).len() == board.len(),
        forall|i: int|
            0 <= i < board.len() && #[trigger] uncovered(board, guess)[i] != board[i] ==> {
                &&& board[i].character == guess
                &&& !board[i].revealed
                &&& uncovered(board, guess)[i].revealed
            },
{
    if hides(board, guess) {
        let i = choose|i: int|
            0 <= i < board.len() && (#[trigger] board[i]).character == guess && !board[i].revealed;
        assert(uncovered(board, guess)[i].revealed);
    } else {
        assert(uncovered(board, guess) =~= board);
    }
}

/// Unless the guess occurs in the word only where it is already uncovered,
/// the guess occurs in the word exactly when it changes the board.
pub proof fn lemma_found_iff_changed(board: Seq<Letter>, guess: char)
    requires
        occurs(board, guess) ==> hides(board, guess),
    ensures
        occurs(board, guess) <==> uncovered(board, guess) != board,
{
    lemma_changed_iff_hidden_match(board, guess);
}

} // verus!
