//! Words as sequences of characters: endings, stems and joins.

use vstd::prelude::*;
use vstd::string::*;

verus! {

/// `suffix` stands at the end of `word`.
pub open spec fn is_suffix(word: Seq<char>, suffix: Seq<char>) -> bool {
    suffix.len() <= word.len() && word.subrange(word.len() - suffix.len(), word.len() as int)
        == suffix
}

/// `word` without its last `n` characters, or nothing where it has fewer.
pub open spec fn without_last(word: Seq<char>, n: nat) -> Seq<char> {
    if n >= word.len() {
        Seq::empty()
    } else {
        word.subrange(0, word.len() - n)
    }
}

/// The last `n` characters of `word`, or all of it where it has fewer.
pub open spec fn last_chars(word: Seq<char>, n: nat) -> Seq<char> {
    if n >= word.len() {
        word
    } else {
        word.subrange(word.len() - n, word.len() as int)
    }
}

/// `head` and `tail` with one space between them.
pub open spec fn spaced(head: Seq<char>, tail: Seq<char>) -> Seq<char> {
    head + seq![' '] + tail
}

/// `text` is empty or the lone hyphen that a dictionary writes for a form
/// that does not exist.
pub open spec fn is_blank(text: Seq<char>) -> bool {
    text.len() == 0 || text == "-"@
}

/// A word that ends in `ending` is its stem followed by `ending`.
pub proof fn lemma_stem_and_ending(word: Seq<char>, ending: Seq<char>)
    requires
        is_suffix(word, ending),
    ensures
        without_last(word, ending.len()) + ending == word,
{
    assert(without_last(word, ending.len()) + ending =~= word);
}

/// Whether `a` and `b` are the same text.
pub fn same_text(a: &str, b: &str) -> (r: bool)
    ensures
        r == (a@ == b@),
{
    let left = a.to_owned();
    let right = b.to_owned();
    left == right
}

/// Whether `word` ends in `suffix`.
pub fn ends_with(word: &str, suffix: &str) -> (r: bool)
    ensures
        r == is_suffix(word@, suffix@),
{
    let n: usize = word.unicode_len();
    let k: usize = suffix.unicode_len();
    if k > n {
        false
    } else {
        same_text(word.substring_char(n - k, n), suffix)
    }
}

/// `word` without its last `n` characters.
pub fn strip_last(word: &str, n: usize) -> (r: String)
    ensures
        r@ == without_last(word@, n as nat),
{
    let len: usize = word.unicode_len();
    if n >= len {
        String::new()
    } else {
        word.substring_char(0, len - n).to_owned()
    }
}

/// The last `n` characters of `word`.
pub fn keep_last(word: &str, n: usize) -> (r: String)
    ensures
        r@ == last_chars(word@, n as nat),
{
    let len: usize = word.unicode_len();
    if n >= len {
        word.to_owned()
    } else {
        word.substring_char(len - n, len).to_owned()
    }
}

/// Adds a space and `tail` to `head`.
pub fn join_spaced(head: String, tail: &str) -> (r: String)
    ensures
        r@ == spaced(head@, tail@),
{
    proof {
        reveal_strlit(" ");
        assert(" "@ =~= seq![' ']);
    }
    head.concat(" ").concat(tail)
}

/// Whether a dictionary form is lacking.
pub fn blank(text: &str) -> (r: bool)
    ensures
        r == is_blank(text@),
{
    text.unicode_len() == 0 || same_text(text, "-")
}

} // verus!
