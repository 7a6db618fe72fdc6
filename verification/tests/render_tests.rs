use hangman::{
    closing_line, create_letters, progress_line, shown, turns_line, uncover, Letter, Stage,
    GOODBYE, HIDDEN_GLYPH, PROMPT, WELCOME,
};

#[test]
fn hidden_letter_shows_the_placeholder() {
    assert_eq!(HIDDEN_GLYPH, '_');
    assert_eq!(shown(&Letter { character: 'x', revealed: false }), '_');
}

#[test]
fn uncovered_letter_shows_itself() {
    assert_eq!(shown(&Letter { character: 'x', revealed: true }), 'x');
}

#[test]
fn progress_line_of_a_fresh_board() {
    let letters = create_letters(&String::from("cat"));
    assert_eq!(progress_line(&letters), "Progress: _ _ _ ");
}

#[test]
fn progress_line_of_a_partly_uncovered_board() {
    let mut letters = create_letters(&String::from("banana"));
    uncover(&mut letters, 'a');
    assert_eq!(progress_line(&letters), "Progress: _ a _ a _ a ");
}

#[test]
fn progress_line_of_a_full_board() {
    let mut letters = create_letters(&String::from("cat"));
    uncover(&mut letters, 'c');
    uncover(&mut letters, 'a');
    uncover(&mut letters, 't');
    assert_eq!(progress_line(&letters), "Progress: c a t ");
}

#[test]
fn progress_line_of_the_empty_board_is_the_label() {
    assert_eq!(progress_line(&Vec::new()), "Progress:");
}

#[test]
fn progress_line_has_two_characters_per_letter_and_one_at_the_end() {
    let letters = create_letters(&String::from("hangman"));
    assert_eq!(progress_line(&letters).chars().count(), "Progress:".len() + 2 * 7 + 1);
}

#[test]
fn progress_line_puts_one_space_between_glyphs() {
    let mut letters = create_letters(&String::from("galaxy"));
    uncover(&mut letters, 'a');
    uncover(&mut letters, 'y');
    let line = progress_line(&letters);
    assert_eq!(line, "Progress: _ a _ a _ y ");
    assert_eq!(line.trim_end(), "Progress: _ a _ a _ y");
    assert!(!line.contains("  "));
}

#[test]
fn progress_line_of_one_letter() {
    assert_eq!(progress_line(&vec![Letter { character: 'q', revealed: false }]), "Progress: _ ");
    assert_eq!(progress_line(&vec![Letter { character: 'q', revealed: true }]), "Progress: q ");
}

#[test]
fn progress_line_shows_a_space_in_the_word_as_itself() {
    let mut letters = create_letters(&String::from("a b"));
    uncover(&mut letters, ' ');
    assert_eq!(progress_line(&letters), "Progress: _   _ ");
}

#[test]
fn turns_line_names_the_attempts() {
    assert_eq!(turns_line(5), "You have 5 turns left.");
    assert_eq!(turns_line(1), "You have 1 turns left.");
    assert_eq!(turns_line(0), "You have 0 turns left.");
}

#[test]
fn turns_line_writes_every_digit() {
    assert_eq!(turns_line(9), "You have 9 turns left.");
    assert_eq!(turns_line(10), "You have 10 turns left.");
    assert_eq!(turns_line(42), "You have 42 turns left.");
    assert_eq!(turns_line(99), "You have 99 turns left.");
    assert_eq!(turns_line(100), "You have 100 turns left.");
    assert_eq!(turns_line(107), "You have 107 turns left.");
    assert_eq!(turns_line(255), "You have 255 turns left.");
}

#[test]
fn turns_line_agrees_with_the_standard_library() {
    for turns_left in 0..=255u8 {
        assert_eq!(turns_line(turns_left), format!("You have {} turns left.", turns_left));
    }
}

#[test]
fn closing_line_of_a_finished_game() {
    assert_eq!(closing_line(Stage::Won), Some("Congrats! You won!"));
    assert_eq!(closing_line(Stage::Lost), Some("You lost!"));
}

#[test]
fn closing_line_of_any_other_stage_is_missing() {
    assert_eq!(closing_line(Stage::Setup), None);
    assert_eq!(closing_line(Stage::Turn), None);
    assert_eq!(closing_line(Stage::QuitRequested), None);
}

#[test]
fn fixed_lines() {
    assert_eq!(WELCOME, "Welcome to Hangman!");
    assert_eq!(PROMPT, "Please enter a letter to guess:");
    assert_eq!(GOODBYE, "Goodbye!");
}
