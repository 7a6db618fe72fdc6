//! One session of the game as a state machine: a guess goes in, the next
//! stage comes out. Reading guesses and printing are the caller's part.

use crate::board::{
    all_revealed, create_letters, hidden_board, occurs, uncover, uncovered, Letter,
};
use crate::input::QUIT;
use crate::progress::{check_progress, standing, GameProgress};
use crate::render::{progress_line, progress_text};
use vstd::prelude::*;

verus! {

/// How many wrong guesses a player can afford.
pub const ALLOWED_ATTEMPTS: u8 = 5;

/// The stages of a session.
#[derive(Clone, Copy, Debug, PartialEq, Eq, Structural)]
pub enum Stage {
    /// No word has been chosen yet.
    Setup,
    /// The player is to guess.
    Turn,
    /// Every letter is uncovered. Final.
    Won,
    /// The attempts are used up. Final.
    Lost,
    /// The player asked to leave, or the input ran dry. Final.
    QuitRequested,
}

/// A session as a mathematical value.
pub struct Session {
    /// The stage it is in.
    pub stage: Stage,
    /// The board, empty during setup.
    pub board: Seq<Letter>,
    /// The wrong guesses that the player can still afford.
    pub turns_left: int,
}

/// The session before a word is chosen.
pub open spec fn initial() -> Session {
    Session { stage: Stage::Setup, board: Seq::empty(), turns_left: ALLOWED_ATTEMPTS as int }
}

/// The sessions that a game can be in.
///
/// The attempts stay between zero and [`ALLOWED_ATTEMPTS`]. While the player
/// is to guess, at least one attempt is left, and letters are still hidden
/// unless the word is empty and nothing was guessed yet. A won session shows
/// every letter; a lost one has no attempt left and letters still hidden.
pub open spec fn valid(session: Session) -> bool {
    &&& 0 <= session.turns_left <= ALLOWED_ATTEMPTS
    &&& match session.stage {
        Stage::Setup => session.board.len() == 0 && session.turns_left == ALLOWED_ATTEMPTS,
        Stage::Turn | Stage::QuitRequested => {
            &&& session.turns_left > 0
            &&& all_revealed(session.board) ==> session.board.len() == 0 && session.turns_left
                == ALLOWED_ATTEMPTS
        },
        Stage::Won => all_revealed(session.board),
        Stage::Lost => session.turns_left == 0 && !all_revealed(session.board),
    }
}

/// The session after `word` was chosen: play begins on a board that hides
/// every letter. A session that is past its setup stays as it is.
pub open spec fn started(session: Session, word: Seq<char>) -> Session {
    if session.stage == Stage::Setup {
        Session { stage: Stage::Turn, board: hidden_board(word), turns_left: session.turns_left }
    } else {
        session
    }
}

/// The stage that follows a guess after which the game stands at `progress`.
pub open spec fn stage_after(progress: GameProgress) -> Stage {
    match progress {
        GameProgress::InProgress => Stage::Turn,
        GameProgress::Won => Stage::Won,
        GameProgress::Lost => Stage::Lost,
    }
}

/// The stage that follows a guess after which the game stands at `progress`:
/// another turn while the game is in progress, else the matching final stage.
pub fn next_stage(progress: GameProgress) -> (stage: Stage)
    ensures
        stage == stage_after(progress),
{
    match progress {
        GameProgress::InProgress => Stage::Turn,
        GameProgress::Won => Stage::Won,
        GameProgress::Lost => Stage::Lost,
    }
}

/// The attempts left after guessing `guess` on `board`: one fewer if the guess
/// occurs nowhere in the word, the same otherwise.
pub open spec fn turns_after(turns_left: int, board: Seq<Letter>, guess: char) -> int {
    if occurs(board, guess) {
        turns_left
    } else {
        turns_left - 1
    }
}

/// The session after the player's guess.
///
/// Outside a turn nothing happens. In a turn, [`QUIT`] ends the session and
/// leaves board and attempts alone. Any other guess uncovers the letters equal
/// to it, costs an attempt if there are none, and moves on to the stage that
/// the new board and attempts call for.
pub open spec fn guessed(session: Session, guess: char) -> Session {
    if session.stage != Stage::Turn {
        session
    } else if guess == QUIT {
        Session { stage: Stage::QuitRequested, ..session }
    } else {
        let board = uncovered(session.board, guess);
        let turns_left = turns_after(session.turns_left, session.board, guess);
        Session { stage: stage_after(standing(turns_left, board)), board, turns_left }
    }
}

/// One session of the game: the board, the attempts left, and the stage.
#[derive(Debug)]
pub struct Game {
    stage: Stage,
    letters: Vec<Letter>,
    turns_left: u8,
}

impl View for Game {
    type V = Session;

    closed spec fn view(&self) -> Session {
        Session {
            stage: self.stage,
            board: self.letters@,
            turns_left: self.turns_left as int,
        }
    }
}

impl Game {
    /// Whether this is a session that a game can be in.
    pub open spec fn wf(&self) -> bool {
        valid(self@)
    }

    /// A session in its setup stage, with all attempts left.
    pub fn new() -> (game: Game)
        ensures
            game@ == initial(),
            game.wf(),
    {
        Game { stage: Stage::Setup, letters: Vec::new(), turns_left: ALLOWED_ATTEMPTS }
    }

    /// Begins play with `word` as the secret word.
    pub fn start(&mut self, word: &String)
        requires
            old(self).wf(),
        ensures
            final(self)@ == started(old(self)@, word@),
            final(self).wf(),
    {
        if self.stage == Stage::Setup {
            proof {
                lemma_start_keeps_valid(self@, word@);
            }
            self.letters = create_letters(word);
            self.stage = Stage::Turn;
        }
    }

    /// Plays one guess and returns the stage that the session is in afterwards.
    pub fn guess(&mut self, guess: char) -> (stage: Stage)
        requires
            old(self).wf(),
        ensures
            final(self)@ == guessed(old(self)@, guess),
            stage == final(self)@.stage,
            final(self).wf(),
    {
        if self.stage != Stage::Turn {
            return self.stage;
        }
        if guess == QUIT {
            self.stage = Stage::QuitRequested;
            return self.stage;
        }
        proof {
            lemma_guess_keeps_valid(self@, guess);
        }
        let found = uncover(&mut self.letters, guess);
        if !found {
            self.turns_left = self.turns_left - 1;
        }
        self.stage = next_stage(check_progress(self.turns_left, &self.letters));
        self.stage
    }

    /// The stage that the session is in.
    pub fn stage(&self) -> (stage: Stage)
        ensures
            stage == self@.stage,
    {
        self.stage
    }

    /// The wrong guesses that the player can still afford.
    pub fn turns_left(&self) -> (turns_left: u8)
        ensures
            turns_left == self@.turns_left,
    {
        self.turns_left
    }

    /// The board.
    pub fn letters(&self) -> (letters: &Vec<Letter>)
        ensures
            letters@ == self@.board,
    {
        &self.letters
    }

    /// The line that shows the board to the player.
    pub fn progress_line(&self) -> (line: String)
        ensures
            line@ == progress_text(self@.board),
    {
        progress_line(&self.letters)
    }
}

/// Choosing the word leads from a session that a game can be in to another
/// such session, with the attempts untouched.
pub proof fn lemma_start_keeps_valid(session: Session, word: Seq<char>)
    requires
        valid(session),
    ensures
        valid(started(session, word)),
        started(session, word).turns_left == session.turns_left,
{
    if session.stage == Stage::Setup && word.len() > 0 {
        assert(!hidden_board(word)[0].revealed);
    }
}

/// A guess leads from a session that a game can be in to another such
/// session. In particular the attempts never fall below zero.
pub proof fn lemma_guess_keeps_valid(session: Session, guess: char)
    requires
        valid(session),
    ensures
        valid(guessed(session, guess)),
        0 <= guessed(session, guess).turns_left <= session.turns_left,
        guessed(session, guess).board.len() == session.board.len(),
{
}

/// A wrong guess with one attempt left loses the game: the attempts go to
/// zero, not below, and the board stays as it was. [`QUIT`] is no guess in
/// this sense, since it ends the session before the board is looked at.
pub proof fn lemma_last_miss_loses(session: Session, guess: char)
    requires
        valid(session),
        session.stage == Stage::Turn,
        session.turns_left == 1,
        !occurs(session.board, guess),
        guess != QUIT,
    ensures
        guessed(session, guess).stage == Stage::Lost,
        guessed(session, guess).turns_left == 0,
        guessed(session, guess).board == session.board,
{
    assert(uncovered(session.board, guess) =~= session.board);
}

/// A final stage is final: no guess changes a session that is won, lost or
/// left, nor one that has not begun.
pub proof fn lemma_only_turns_move(session: Session, guess: char)
    requires
        session.stage != Stage::Turn,
    ensures
        guessed(session, guess) == session,
{
}

/// Leaving changes nothing but the stage.
pub proof fn lemma_quit_keeps_state(session: Session)
    requires
        session.stage == Stage::Turn,
    ensures
        guessed(session, QUIT).stage == Stage::QuitRequested,
        guessed(session, QUIT).board == session.board,
        guessed(session, QUIT).turns_left == session.turns_left,
{
}

} // verus!
