use hangman::{check_progress, create_letters, is_complete, uncover, GameProgress, Letter};

fn board(word: &str) -> Vec<Letter> {
    create_letters(&String::from(word))
}

fn revealed(letters: &[Letter]) -> Vec<bool> {
    letters.iter().map(|letter| letter.revealed).collect()
}

fn spelled(letters: &[Letter]) -> String {
    letters.iter().map(|letter| letter.character).collect()
}

#[test]
fn fresh_board_has_one_hidden_letter_per_character() {
    let letters = board("hello");
    assert_eq!(letters.len(), 5);
    assert_eq!(spelled(&letters), "hello");
    assert_eq!(revealed(&letters), vec![false; 5]);
}

#[test]
fn fresh_board_of_the_empty_word_is_empty() {
    assert_eq!(board(""), Vec::<Letter>::new());
}

#[test]
fn fresh_board_counts_characters_not_bytes() {
    let letters = board("zoë");
    assert_eq!(letters.len(), 3);
    assert_eq!(letters[2], Letter { character: 'ë', revealed: false });
}

#[test]
fn hidden_letter_is_not_revealed() {
    assert_eq!(Letter::hidden('q'), Letter { character: 'q', revealed: false });
}

#[test]
fn guess_uncovers_every_occurrence() {
    let mut letters = board("hello");
    assert!(uncover(&mut letters, 'l'));
    assert_eq!(revealed(&letters), vec![false, false, true, true, false]);
    assert_eq!(spelled(&letters), "hello");
}

#[test]
fn guess_that_occurs_nowhere_changes_nothing() {
    let mut letters = board("hello");
    uncover(&mut letters, 'h');
    let before = letters.clone();
    assert!(!uncover(&mut letters, 'z'));
    assert_eq!(letters, before);
}

#[test]
fn guess_is_case_sensitive() {
    let mut letters = board("Cat");
    assert!(!uncover(&mut letters, 'c'));
    assert_eq!(revealed(&letters), vec![false, false, false]);
    assert!(uncover(&mut letters, 'C'));
    assert_eq!(revealed(&letters), vec![true, false, false]);
}

#[test]
fn repeated_guess_is_found_but_changes_nothing() {
    let mut letters = board("cat");
    assert!(uncover(&mut letters, 'a'));
    let before = letters.clone();
    assert!(uncover(&mut letters, 'a'));
    assert_eq!(letters, before);
}

#[test]
fn guess_on_the_empty_board_finds_nothing() {
    let mut letters = board("");
    assert!(!uncover(&mut letters, 'a'));
    assert!(letters.is_empty());
}

#[test]
fn earlier_letters_stay_uncovered() {
    let mut letters = board("cat");
    uncover(&mut letters, 'c');
    uncover(&mut letters, 't');
    assert_eq!(revealed(&letters), vec![true, false, true]);
}

#[test]
fn complete_only_when_every_letter_shows() {
    let mut letters = board("aba");
    assert!(!is_complete(&letters));
    uncover(&mut letters, 'a');
    assert!(!is_complete(&letters));
    uncover(&mut letters, 'b');
    assert!(is_complete(&letters));
    assert!(is_complete(&Vec::new()));
}

#[test]
fn full_board_wins_whatever_the_attempts() {
    let letters = vec![
        Letter { character: 'o', revealed: true },
        Letter { character: 'k', revealed: true },
    ];
    assert_eq!(check_progress(0, &letters), GameProgress::Won);
    assert_eq!(check_progress(1, &letters), GameProgress::Won);
    assert_eq!(check_progress(5, &letters), GameProgress::Won);
    assert_eq!(check_progress(255, &letters), GameProgress::Won);
}

#[test]
fn hidden_letter_without_attempts_loses() {
    let letters = vec![
        Letter { character: 'o', revealed: true },
        Letter { character: 'k', revealed: false },
    ];
    assert_eq!(check_progress(0, &letters), GameProgress::Lost);
}

#[test]
fn hidden_letter_with_attempts_goes_on() {
    let letters = vec![
        Letter { character: 'o', revealed: false },
        Letter { character: 'k', revealed: true },
    ];
    assert_eq!(check_progress(1, &letters), GameProgress::InProgress);
    assert_eq!(check_progress(5, &letters), GameProgress::InProgress);
}

#[test]
fn empty_board_counts_as_won() {
    assert_eq!(check_progress(0, &Vec::new()), GameProgress::Won);
    assert_eq!(check_progress(5, &Vec::new()), GameProgress::Won);
}
