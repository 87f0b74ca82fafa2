//! Splitting a line of text into words.

use vstd::prelude::*;
use vstd::string::StrSliceExecFns;
use vstd::string::StringExecFns;

verus! {

/// The characters that separate words: those with the Unicode property
/// `White_Space`.
pub open spec fn is_whitespace(c: char) -> bool {
    let n = c as u32;
    ||| 0x09 <= n <= 0x0D
    ||| n == 0x20
    ||| n == 0x85
    ||| n == 0xA0
    ||| n == 0x1680
    ||| 0x2000 <= n <= 0x200A
    ||| n == 0x2028
    ||| n == 0x2029
    ||| n == 0x202F
    ||| n == 0x205F
    ||| n == 0x3000
}

/// The words of `s`: its maximal runs of characters that are not whitespace,
/// from left to right.
///
/// The definition reads `s` one character at a time. A whitespace character
/// adds nothing; another character lengthens the last word when it follows a
/// character of that word, and starts a new word otherwise.
pub open spec fn words(s: Seq<char>) -> Seq<Seq<char>>
    decreases s.len(),
{
    if s.len() == 0 {
        Seq::empty()
    } else {
        let before = words(s.drop_last());
        if is_whitespace(s.last()) {
            before
        } else if s.len() >= 2 && !is_whitespace(s[s.len() - 2]) {
            before.drop_last().push(before.last().push(s.last()))
        } else {
            before.push(seq![s.last()])
        }
    }
}

/// The words of `s` after its first `i` characters were read, when the word
/// that is being read started at `start`: the finished words `done`, and the
/// characters from `start` on, if there are any.
spec fn words_so_far(s: Seq<char>, done: Seq<Seq<char>>, start: int, i: int) -> Seq<
    Seq<char>,
> {
    if start < i {
        done.push(s.subrange(start, i))
    } else {
        done
    }
}

/// Whether `word` can be a word: it is not empty and holds no whitespace.
pub open spec fn is_word(word: Seq<char>) -> bool {
    &&& word.len() > 0
    &&& forall|j: int| 0 <= j < word.len() ==> !is_whitespace(word[j])
}

/// Every word of a text is not empty and holds no whitespace, and a text
/// that ends in another character has a word.
pub proof fn lemma_words_are_words(s: Seq<char>)
    ensures
        forall|k: int| 0 <= k < words(s).len() ==> is_word(#[trigger] words(s)[k]),
        s.len() > 0 && !is_whitespace(s.last()) ==> words(s).len() > 0,
    decreases s.len(),
{
    if s.len() > 0 {
        let before = words(s.drop_last());
        lemma_words_are_words(s.drop_last());
        if !is_whitespace(s.last()) && s.len() >= 2 && !is_whitespace(s[s.len() - 2]) {
            assert(is_word(before.last().push(s.last())));
        }
    }
}

/// Whether `c` is a whitespace character.
pub fn is_space(c: char) -> (b: bool)
    ensures
        b == is_whitespace(c),
{
    let n: u32 = c as u32;
    (0x09 <= n && n <= 0x0D) || n == 0x20 || n == 0x85 || n == 0xA0 || n == 0x1680 || (0x2000 <= n
        && n <= 0x200A) || n == 0x2028 || n == 0x2029 || n == 0x202F || n == 0x205F || n == 0x3000
}

/// Splits `s` at whitespace into its words.
pub fn split_words(s: &str) -> (out: Vec<String>)
    ensures
        out.deep_view() == words(s@),
{
    let n = s.unicode_len();
    let mut out: Vec<String> = Vec::new();
    let mut start: usize = 0;
    let mut i: usize = 0;
    while i < n
        invariant
            n == s@.len(),
            start <= i <= n,
            start < i ==> !is_whitespace(s@[i - 1]),
            start == i && i > 0 ==> is_whitespace(s@[i - 1]),
            words(s@.take(i as int)) == words_so_far(s@, out.deep_view(), start as int, i as int),
        decreases n - i,
    {
        let c = s.get_char(i);
        assert(s@.take(i + 1).drop_last() =~= s@.take(i as int));
        if is_space(c) {
            if start < i {
                let word = String::from_str(s.substring_char(start, i));
                out.push(word);
            }
            start = i + 1;
        } else {
            proof {
                if start < i {
                    assert(s@.subrange(start as int, i + 1) =~= s@.subrange(
                        start as int,
                        i as int,
                    ).push(c));
                } else {
                    assert(s@.subrange(start as int, i + 1) =~= seq![c]);
                }
            }
        }
        i += 1;
    }
    assert(s@.take(n as int) =~= s@);
    if start < n {
        let word = String::from_str(s.substring_char(start, n));
        out.push(word);
    }
    out
}

} // verus!
