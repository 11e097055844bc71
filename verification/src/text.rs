//! Strings as sequences of characters, and the search for a word in a text.

use vstd::prelude::*;
use vstd::std_specs::iter::IteratorSpec;

verus! {

/// `word` stands in `text` at offset `at`.
pub open spec fn occurs_at(text: Seq<char>, word: Seq<char>, at: int) -> bool {
    &&& 0 <= at
    &&& at + word.len() <= text.len()
    &&& text.subrange(at, at + word.len()) == word
}

/// `word` stands somewhere in `text`, as a run of neighbouring characters.
pub open spec fn mentions(text: Seq<char>, word: Seq<char>) -> bool {
    exists|at: int| occurs_at(text, word, at)
}

/// The characters of `s`, in order.
pub fn chars_of(s: &str) -> (v: Vec<char>)
    ensures
        v@ == s@,
{
    broadcast use vstd::string::group_string_axioms;

    let mut v: Vec<char> = Vec::new();
    let mut it = s.chars();
    loop
        invariant
            v@ + it.remaining() == s@,
            it.decrease() is Some,
        ensures
            v@ == s@,
        decreases it.decrease()->0,
    {
        match it.next() {
            Some(c) => {
                v.push(c);
                assert(v@ + it.remaining() =~= s@);
            },
            None => {
                assert(v@ =~= s@);
                break ;
            },
        }
    }
    v
}

/// Whether `word` stands in `text` at offset `at`.
pub fn word_at(text: &Vec<char>, word: &Vec<char>, at: usize) -> (found: bool)
    ensures
        found == occurs_at(text@, word@, at as int),
{
    if at > text.len() || word.len() > text.len() - at {
        return false;
    }
    let mut k: usize = 0;
    while k < word.len()
        invariant
            at + word.len() <= text.len(),
            k <= word.len(),
            forall|j: int| 0 <= j < k ==> text@[at + j] == word@[j],
        decreases word.len() - k,
    {
        if text[at + k] != word[k] {
            assert(text@.subrange(at as int, at + word.len())[k as int] != word@[k as int]);
            return false;
        }
        k += 1;
    }
    assert(text@.subrange(at as int, at + word.len()) =~= word@);
    true
}

/// `word` stands in `text` at some offset below `end`.
pub open spec fn mentions_before(text: Seq<char>, word: Seq<char>, end: int) -> bool {
    exists|at: int| at < end && occurs_at(text, word, at)
}

/// Where a word stands in a text, the text's character at that offset is
/// the word's first.
pub proof fn lemma_first_character(text: Seq<char>, word: Seq<char>, at: int)
    requires
        occurs_at(text, word, at),
        word.len() > 0,
    ensures
        at < text.len(),
        text[at] == word[0],
{
    assert(text.subrange(at, at + word.len())[0] == text[at]);
}

/// A word that is not empty stands in a text exactly if it stands at an
/// offset below the text's length.
pub proof fn lemma_mentions_within(text: Seq<char>, word: Seq<char>)
    requires
        word.len() > 0,
    ensures
        mentions(text, word) == mentions_before(text, word, text.len() as int),
{
    if mentions(text, word) {
        let at = choose|at: int| occurs_at(text, word, at);
        assert(at < text.len() && occurs_at(text, word, at));
    }
}

/// Looking one offset further finds what was found before, and what stands
/// at that offset.
pub proof fn lemma_mentions_step(text: Seq<char>, word: Seq<char>, end: int)
    ensures
        mentions_before(text, word, end + 1) == (mentions_before(text, word, end) || occurs_at(
            text,
            word,
            end,
        )),
{
    if mentions_before(text, word, end + 1) {
        let at = choose|at: int| at < end + 1 && occurs_at(text, word, at);
        if at < end {
            assert(mentions_before(text, word, end));
        }
    }
    if mentions_before(text, word, end) {
        let at = choose|at: int| at < end && occurs_at(text, word, at);
        assert(at < end + 1 && occurs_at(text, word, at));
    }
}

} // verus!
