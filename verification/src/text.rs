//! Words and whitespace: how a text is cut into tokens and how tokens are
//! joined back into a text.

use vstd::prelude::*;
use vstd::string::*;

verus! {

/// The characters with the Unicode property `White_Space`.
pub open spec fn is_whitespace(c: char) -> bool {
    ||| '\u{0009}' <= c <= '\u{000D}'
    ||| c == '\u{0020}'
    ||| c == '\u{0085}'
    ||| c == '\u{00A0}'
    ||| c == '\u{1680}'
    ||| '\u{2000}' <= c <= '\u{200A}'
    ||| c == '\u{2028}'
    ||| c == '\u{2029}'
    ||| c == '\u{202F}'
    ||| c == '\u{205F}'
    ||| c == '\u{3000}'
}

/// A word is a non-empty text without whitespace.
pub open spec fn is_word(s: Seq<char>) -> bool {
    &&& s.len() > 0
    &&& forall|i: int| 0 <= i < s.len() ==> !is_whitespace(#[trigger] s[i])
}

/// Every element of `words` is a word.
pub open spec fn all_words(words: Seq<Seq<char>>) -> bool {
    forall|i: int| 0 <= i < words.len() ==> is_word(#[trigger] words[i])
}

/// The length of the longest prefix of `s` that holds no whitespace.
pub open spec fn word_len(s: Seq<char>) -> nat
    decreases s.len(),
{
    if s.len() == 0 || is_whitespace(s[0]) {
        0
    } else {
        1 + word_len(s.drop_first())
    }
}

/// The maximal whitespace-free runs of `s`, from left to right.
pub open spec fn split_whitespace(s: Seq<char>) -> Seq<Seq<char>>
    decreases s.len(),
    via split_whitespace_decreases
{
    if s.len() == 0 {
        Seq::empty()
    } else if is_whitespace(s[0]) {
        split_whitespace(s.drop_first())
    } else {
        seq![s.take(word_len(s) as int)] + split_whitespace(s.skip(word_len(s) as int))
    }
}

#[via_fn]
proof fn split_whitespace_decreases(s: Seq<char>) {
    lemma_word_len_bound(s);
}

/// The words of `words` in order, with one space between neighbours.
pub open spec fn join_words(words: Seq<Seq<char>>) -> Seq<char>
    decreases words.len(),
{
    if words.len() == 0 {
        Seq::empty()
    } else if words.len() == 1 {
        words[0]
    } else {
        words[0] + seq![' '] + join_words(words.drop_first())
    }
}

/// The texts of a sequence of strings.
pub open spec fn texts(strings: Seq<String>) -> Seq<Seq<char>> {
    Seq::new(strings.len(), |i: int| strings[i]@)
}

/// The longest whitespace-free prefix lies within the text, holds no
/// whitespace, and ends at whitespace or at the end of the text.
pub proof fn lemma_word_len_bound(s: Seq<char>)
    ensures
        word_len(s) <= s.len(),
        forall|k: int| 0 <= k < word_len(s) ==> !is_whitespace(#[trigger] s[k]),
        word_len(s) < s.len() ==> is_whitespace(s[word_len(s) as int]),
    decreases s.len(),
{
    if s.len() == 0 || is_whitespace(s[0]) {
    } else {
        let rest = s.drop_first();
        lemma_word_len_bound(rest);
        assert forall|k: int| 0 <= k < word_len(s) implies !is_whitespace(#[trigger] s[k]) by {
            if k > 0 {
                assert(s[k] == rest[k - 1]);
            }
        }
    }
}

/// A whitespace-free run that ends at whitespace or at the end of the text is
/// the longest one.
pub proof fn lemma_word_len_is(s: Seq<char>, n: int)
    requires
        0 <= n <= s.len(),
        forall|k: int| 0 <= k < n ==> !is_whitespace(#[trigger] s[k]),
        n == s.len() || is_whitespace(s[n]),
    ensures
        word_len(s) == n,
    decreases s.len(),
{
    if n > 0 {
        let rest = s.drop_first();
        assert forall|k: int| 0 <= k < n - 1 implies !is_whitespace(#[trigger] rest[k]) by {}
        lemma_word_len_is(rest, n - 1);
    }
}

/// Splitting a text that starts with a word of `n` characters gives that word,
/// then what the rest of the text splits into.
pub proof fn lemma_split_leading_word(s: Seq<char>, n: int)
    requires
        0 < n <= s.len(),
        forall|k: int| 0 <= k < n ==> !is_whitespace(#[trigger] s[k]),
        n == s.len() || is_whitespace(s[n]),
    ensures
        split_whitespace(s) == seq![s.take(n)] + split_whitespace(s.skip(n)),
{
    lemma_word_len_is(s, n);
}

/// What a text splits into are words.
pub proof fn lemma_split_gives_words(s: Seq<char>)
    ensures
        all_words(split_whitespace(s)),
    decreases s.len(),
{
    if s.len() == 0 {
    } else if is_whitespace(s[0]) {
        lemma_split_gives_words(s.drop_first());
    } else {
        let n = word_len(s) as int;
        lemma_word_len_bound(s);
        lemma_split_gives_words(s.skip(n));
        let head = s.take(n);
        assert(is_word(head)) by {
            assert forall|i: int| 0 <= i < head.len() implies !is_whitespace(#[trigger] head[i]) by {}
        }
        assert forall|i: int| 0 <= i < split_whitespace(s).len() implies is_word(
            #[trigger] split_whitespace(s)[i],
        ) by {}
    }
}

/// Joining words, then splitting the text, gives the words back.
pub proof fn lemma_split_join(words: Seq<Seq<char>>)
    requires
        all_words(words),
    ensures
        split_whitespace(join_words(words)) == words,
    decreases words.len(),
{
    if words.len() == 0 {
    } else if words.len() == 1 {
        let w = words[0];
        lemma_split_leading_word(w, w.len() as int);
        assert(w.take(w.len() as int) == w);
    } else {
        let w = words[0];
        let rest = words.drop_first();
        let text = join_words(words);
        assert(all_words(rest)) by {
            assert forall|i: int| 0 <= i < rest.len() implies is_word(#[trigger] rest[i]) by {}
        }
        lemma_split_join(rest);
        let n = w.len() as int;
        assert forall|k: int| 0 <= k < n implies !is_whitespace(#[trigger] text[k]) by {}
        lemma_split_leading_word(text, n);
        assert(text.take(n) == w);
        assert(text.skip(n).drop_first() == join_words(rest));
    }
}

/// Joining two non-empty sequences of words puts one space between their texts.
pub proof fn lemma_join_concat(a: Seq<Seq<char>>, b: Seq<Seq<char>>)
    requires
        a.len() > 0,
        b.len() > 0,
    ensures
        join_words(a + b) == join_words(a) + seq![' '] + join_words(b),
    decreases a.len(),
{
    assert((a + b).drop_first() == a.drop_first() + b);
    if a.len() > 1 {
        lemma_join_concat(a.drop_first(), b);
    }
}

/// The text `a`, then `b`, then `c`.
pub fn concat3(a: &str, b: &str, c: &str) -> (text: String)
    ensures
        text@ == a@ + b@ + c@,
{
    let mut text = String::from_str(a);
    text.append(b);
    text.append(c);
    text
}

/// The text `a`, then `b`, then `c`, then `d`.
pub fn concat4(a: &str, b: &str, c: &str, d: &str) -> (text: String)
    ensures
        text@ == a@ + b@ + c@ + d@,
{
    let mut text = concat3(a, b, c);
    text.append(d);
    text
}

/// The text `a`, then `b`, then `c`, then `d`, then `e`.
pub fn concat5(a: &str, b: &str, c: &str, d: &str, e: &str) -> (text: String)
    ensures
        text@ == a@ + b@ + c@ + d@ + e@,
{
    let mut text = concat3(a, b, c);
    text.append(d);
    text.append(e);
    text
}

/// The tokens `a` and `b` with a space between them.
pub fn spaced2(a: &str, b: &str) -> (text: String)
    ensures
        text@ == a@ + seq![' '] + b@,
{
    proof {
        reveal_strlit(" ");
    }
    concat3(a, " ", b)
}

/// The tokens `a`, `b` and `c` with a space between neighbours.
pub fn spaced3(a: &str, b: &str, c: &str) -> (text: String)
    ensures
        text@ == a@ + seq![' '] + b@ + seq![' '] + c@,
{
    proof {
        reveal_strlit(" ");
    }
    concat5(a, " ", b, " ", c)
}

/// Whether `c` is whitespace.
pub fn is_whitespace_char(c: char) -> (r: bool)
    ensures
        r == is_whitespace(c),
{
    ('\u{0009}' <= c && c <= '\u{000D}') || c == '\u{0020}' || c == '\u{0085}' || c == '\u{00A0}'
        || c == '\u{1680}' || ('\u{2000}' <= c && c <= '\u{200A}') || c == '\u{2028}' || c
        == '\u{2029}' || c == '\u{202F}' || c == '\u{205F}' || c == '\u{3000}'
}

/// Cuts `input` into its words.
pub fn tokenize(input: &str) -> (tokens: Vec<String>)
    ensures
        texts(tokens@) == split_whitespace(input@),
{
    broadcast use vstd::string::group_string_axioms;

    let len = input.unicode_len();
    let mut tokens: Vec<String> = Vec::new();
    let mut start: usize = 0;
    let mut pos: usize = 0;
    assert(input@.skip(0) == input@);
    for c in it: input.chars()
        invariant
            it.seq() == input@,
            len == input@.len(),
            pos == it.index(),
            start <= pos <= len,
            forall|k: int| start <= k < pos ==> !is_whitespace(#[trigger] input@[k]),
            texts(tokens@) + split_whitespace(input@.skip(start as int)) == split_whitespace(
                input@,
            ),
    {
        if is_whitespace_char(c) {
            if start < pos {
                proof {
                    lemma_split_from(input@, start as int, pos as int);
                }
                tokens.push(input.substring_char(start, pos).to_owned());
            }
            assert(input@.skip(pos as int).drop_first() == input@.skip(pos + 1));
            start = pos + 1;
        }
        pos = pos + 1;
    }
    if start < pos {
        proof {
            lemma_split_from(input@, start as int, pos as int);
        }
        tokens.push(input.substring_char(start, pos).to_owned());
    }
    tokens
}

/// The word that fills `s` from `from` up to `to` is the first that the text
/// from `from` on splits into.
proof fn lemma_split_from(s: Seq<char>, from: int, to: int)
    requires
        0 <= from < to <= s.len(),
        forall|k: int| from <= k < to ==> !is_whitespace(#[trigger] s[k]),
        to == s.len() || is_whitespace(s[to]),
    ensures
        split_whitespace(s.skip(from)) == seq![s.subrange(from, to)] + split_whitespace(
            s.skip(to),
        ),
{
    let tail = s.skip(from);
    let n = to - from;
    assert forall|k: int| 0 <= k < n implies !is_whitespace(#[trigger] tail[k]) by {}
    lemma_split_leading_word(tail, n);
    assert(tail.take(n) == s.subrange(from, to));
    assert(tail.skip(n) == s.skip(to));
}

} // verus!
