//! The word list: splitting it into entries and drawing the secret word.

use rand::Rng;
use vstd::prelude::*;

verus! {

/// What separates the entries of a word list.
pub const DELIMITER: char = ',';

/// Why no word could be drawn.
#[derive(Clone, Copy, Debug, PartialEq, Eq, Structural)]
pub enum WordError {
    /// The word list could not be opened or read.
    Io,
    /// The word list holds nothing at all.
    Format,
}

/// The entries of `text`, read from left to right: a delimiter closes the
/// current entry and opens a new, empty one; any other character is added to
/// the current entry. Nothing is trimmed or escaped, so a text that ends in a
/// delimiter ends in an empty entry, and the empty text has one empty entry.
pub open spec fn split_entries(text: Seq<char>, delimiter: char) -> Seq<Seq<char>>
    decreases text.len(),
{
    if text.len() == 0 {
        seq![Seq::empty()]
    } else {
        let earlier = split_entries(text.drop_last(), delimiter);
        if text.last() == delimiter {
            earlier.push(Seq::empty())
        } else {
            earlier.update(earlier.len() - 1, earlier.last().push(text.last()))
        }
    }
}

/// The characters of each word of a list.
pub open spec fn word_texts(words: Seq<String>) -> Seq<Seq<char>> {
    Seq::new(words.len(), |i: int| words[i]@)
}

/// Splits the contents of a word list at each comma.
pub fn split_words(contents: &str) -> (words: Vec<String>)
    ensures
        word_texts(words@) == split_entries(contents@, DELIMITER),
        words@.len() >= 1,
{
    let mut words: Vec<String> = Vec::new();
    let mut current = String::new();
    for c in it: contents.chars()
        invariant
            it.seq() == contents@,
            word_texts(words@).push(current@) == split_entries(
                contents@.take(it.index()),
                DELIMITER,
            ),
    {
        let ghost done = word_texts(words@);
        let ghost entry = current@;
        if c == DELIMITER {
            words.push(current);
            current = String::new();
            assert(word_texts(words@) =~= done.push(entry));
        } else {
            current.push(c);
            assert(word_texts(words@) =~= done);
        }
        proof {
            let read = contents@.take(it.index() + 1);
            assert(read.drop_last() =~= contents@.take(it.index()));
            assert(read.last() == c);
            assert(word_texts(words@).push(current@) =~= split_entries(read, DELIMITER));
        }
    }
    proof {
        assert(contents@.take(contents@.len() as int) =~= contents@);
    }
    let ghost done = word_texts(words@);
    words.push(current);
    assert(word_texts(words@) =~= done.push(current@));
    words
}

/// The word at `index` of a list, if the list is that long.
pub fn word_at(words: &Vec<String>, index: usize) -> (word: Option<String>)
    ensures
        match word {
            Some(w) => index < words@.len() && w@ == words@[index as int]@,
            None => index >= words@.len(),
        },
{
    if index < words.len() {
        Some(words[index].clone())
    } else {
        None
    }
}

/// Draws a position in a list of `count` entries with
/// `rand::thread_rng().gen_range(0, count)`, which samples the half-open range
/// from 0 to `count` uniformly. Taken on trust: the position is below `count`.
/// Which position comes out differs from call to call, so nothing more is
/// stated. `gen_range` panics on an empty range, hence `count > 0`; the
/// generator itself panics only if the system cannot seed it.
#[verifier::external_body]
fn random_index(count: usize) -> (index: usize)
    requires
        count > 0,
    ensures
        index < count,
{
    rand::thread_rng().gen_range(0, count)
}

/// Draws the secret word from a word list. `contents` is what reading the
/// list gave: `Some` with the whole text, or `None` where it could not be
/// opened or read.
///
/// An unreadable list is a [`WordError::Io`] and an empty one a
/// [`WordError::Format`]. Any other text yields one of its entries, drawn at
/// random with the same chance for each position. Which entry comes out is
/// open: two calls on the same list may differ.
pub fn select_word(contents: Option<&str>) -> (selected: Result<String, WordError>)
    ensures
        match contents {
            None => selected == Err::<String, WordError>(WordError::Io),
            Some(text) => if text@.len() == 0 {
                selected == Err::<String, WordError>(WordError::Format)
            } else {
                match selected {
                    Ok(word) => split_entries(text@, DELIMITER).contains(word@),
                    Err(_) => false,
                }
            },
        },
{
    match contents {
        None => Err(WordError::Io),
        Some(text) => {
            if text.is_empty() {
                return Err(WordError::Format);
            }
            let words = split_words(text);
            let index = random_index(words.len());
            let word = word_at(&words, index);
            assert(word_texts(words@)[index as int] == word.unwrap()@);
            // The position is below the length, so a word is there.
            word.ok_or(WordError::Format)
        },
    }
}

/// The entries written one after the other with a delimiter between each two
/// neighbours: what a word list with these entries looks like.
pub open spec fn join_entries(entries: Seq<Seq<char>>, delimiter: char) -> Seq<char>
    decreases entries.len(),
{
    if entries.len() == 0 {
        Seq::empty()
    } else if entries.len() == 1 {
        entries[0]
    } else {
        join_entries(entries.drop_last(), delimiter).push(delimiter) + entries.last()
    }
}

/// Whether no entry holds the delimiter.
pub open spec fn delimiter_free(entries: Seq<Seq<char>>, delimiter: char) -> bool {
    forall|i: int| 0 <= i < entries.len() ==> !(#[trigger] entries[i]).contains(delimiter)
}

/// Splitting loses nothing: a text has at least one entry, no entry holds the
/// delimiter, and the entries joined by the delimiter are the text again.
pub proof fn lemma_split_entries(text: Seq<char>, delimiter: char)
    ensures
        split_entries(text, delimiter).len() >= 1,
        delimiter_free(split_entries(text, delimiter), delimiter),
        join_entries(split_entries(text, delimiter), delimiter) == text,
    decreases text.len(),
{
    let entries = split_entries(text, delimiter);
    if text.len() == 0 {
        assert(join_entries(entries, delimiter) =~= text);
    } else {
        let read = text.drop_last();
        let earlier = split_entries(read, delimiter);
        lemma_split_entries(read, delimiter);
        if text.last() == delimiter {
            assert(entries.drop_last() =~= earlier);
            assert(join_entries(entries, delimiter) =~= text);
        } else {
            let entry = earlier.last().push(text.last());
            assert forall|k: int| 0 <= k < entry.len() implies entry[k] != delimiter by {
                if k < earlier.last().len() {
                    assert(earlier.last().contains(entry[k]));
                }
            }
            assert(text =~= read.push(text.last()));
            if earlier.len() > 1 {
                let joined = join_entries(earlier.drop_last(), delimiter).push(delimiter);
                assert(entries.drop_last() =~= earlier.drop_last());
                assert(read == joined + earlier.last());
                assert(join_entries(entries, delimiter) == joined + entry);
                assert(joined + entry =~= (joined + earlier.last()).push(text.last()));
            } else {
                assert(read == earlier[0]);
                assert(join_entries(entries, delimiter) == entry);
            }
        }
    }
}

/// Adding characters other than the delimiter to a text adds them to its last
/// entry.
proof fn lemma_split_longer(text: Seq<char>, tail: Seq<char>, delimiter: char)
    requires
        !tail.contains(delimiter),
    ensures
        split_entries(text, delimiter).len() >= 1,
        split_entries(text + tail, delimiter) == split_entries(text, delimiter).update(
            split_entries(text, delimiter).len() - 1,
            split_entries(text, delimiter).last() + tail,
        ),
    decreases tail.len(),
{
    let entries = split_entries(text, delimiter);
    lemma_split_entries(text, delimiter);
    if tail.len() == 0 {
        assert(text + tail =~= text);
        assert(entries.last() + tail =~= entries.last());
        assert(entries.update(entries.len() - 1, entries.last()) =~= entries);
    } else {
        let shorter = tail.drop_last();
        assert forall|k: int| 0 <= k < shorter.len() implies shorter[k] != delimiter by {
            assert(tail.contains(tail[k]));
        }
        assert(tail.contains(tail.last()));
        lemma_split_longer(text, shorter, delimiter);
        assert((text + tail).drop_last() =~= text + shorter);
        assert((entries.last() + shorter).push(tail.last()) =~= entries.last() + tail);
        assert(split_entries(text + tail, delimiter) =~= entries.update(
            entries.len() - 1,
            entries.last() + tail,
        ));
    }
}

/// Splitting is the only way to take a word list apart: entries that hold no
/// delimiter, joined and split again, come back as they were.
pub proof fn lemma_split_of_joined(entries: Seq<Seq<char>>, delimiter: char)
    requires
        entries.len() >= 1,
        delimiter_free(entries, delimiter),
    ensures
        split_entries(join_entries(entries, delimiter), delimiter) == entries,
    decreases entries.len(),
{
    let tail = entries.last();
    if entries.len() == 1 {
        lemma_split_longer(Seq::empty(), tail, delimiter);
        assert(Seq::<char>::empty() + tail =~= tail);
        assert(split_entries(tail, delimiter) =~= entries);
    } else {
        let head = join_entries(entries.drop_last(), delimiter).push(delimiter);
        lemma_split_of_joined(entries.drop_last(), delimiter);
        assert(head.drop_last() =~= join_entries(entries.drop_last(), delimiter));
        lemma_split_longer(head, tail, delimiter);
        assert(Seq::<char>::empty() + tail =~= tail);
        assert(split_entries(head + tail, delimiter) =~= entries);
    }
}

} // verus!
