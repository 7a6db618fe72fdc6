//! Where a game stands: still running, won, or lost.

use crate::board::{all_revealed, is_complete, Letter};
use vstd::prelude::*;

verus! {

/// Where a game stands after a guess. It is worked out afresh from the board
/// and the attempts that are left, never stored.
#[derive(Clone, Copy, Debug, PartialEq, Eq, Structural)]
pub enum GameProgress {
    /// Letters are still hidden and attempts are left.
    InProgress,
    /// Every letter is uncovered.
    Won,
    /// Letters are still hidden and no attempt is left.
    Lost,
}

/// The standing of a game with `turns_left` attempts and the given board. A
/// fully uncovered board is a win however many attempts are left, zero
/// included; only then do the attempts decide.
pub open spec fn standing(turns_left: int, board: Seq<Letter>) -> GameProgress {
    if all_revealed(board) {
        GameProgress::Won
    } else if turns_left > 0 {
        GameProgress::InProgress
    } else {
        GameProgress::Lost
    }
}

/// Works out where the game stands.
pub fn check_progress(turns_left: u8, letters: &Vec<Letter>) -> (progress: GameProgress)
    ensures
        progress == standing(turns_left as int, letters@),
        progress == GameProgress::Won <==> all_revealed(letters@),
        progress == GameProgress::Lost <==> turns_left == 0 && !all_revealed(letters@),
        progress == GameProgress::InProgress <==> turns_left > 0 && !all_revealed(letters@),
{
    if is_complete(letters) {
        return GameProgress::Won;
    }
    if turns_left > 0 {
        return GameProgress::InProgress;
    }
    GameProgress::Lost
}

} // verus!
