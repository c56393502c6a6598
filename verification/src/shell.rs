//! Shell quoting of words for display.

use vstd::prelude::*;

use crate::text::string_views;

verus! {

/// The text that `shell_words::quote` produces for the word `word`.
pub uninterp spec fn shell_quoted(word: Seq<char>) -> Seq<char>;

/// The command line made of `words`: each word quoted, with one space between
/// neighbours.
pub open spec fn shell_joined(words: Seq<Seq<char>>) -> Seq<char>
    decreases words.len(),
{
    if words.len() == 0 {
        Seq::empty()
    } else if words.len() == 1 {
        shell_quoted(words[0])
    } else {
        shell_joined(words.drop_last()) + seq![' '] + shell_quoted(words.last())
    }
}

/// Calls `shell_words::quote`, which escapes a word so that a Unix shell reads
/// it back as that one word. The quoting style is the crate's own; the result
/// depends on the word alone.
#[verifier::external_body]
pub(crate) fn quote(word: &str) -> (quoted: String)
    ensures
        quoted@ == shell_quoted(word@),
{
    shell_words::quote(word).into_owned()
}

/// Calls `shell_words::join`, which quotes each word as `shell_words::quote`
/// does and puts one space between neighbours.
#[verifier::external_body]
pub(crate) fn join(words: &Vec<String>) -> (line: String)
    ensures
        line@ == shell_joined(string_views(words@)),
{
    shell_words::join(words)
}

} // verus!
