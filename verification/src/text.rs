//! Whitespace, tokens and trimming of request text.
//!
//! Text is modelled as a sequence of characters. A token is a maximal run of
//! characters that are not white space.

use vstd::prelude::*;

verus! {

/// Whether `c` is white space: a character with the Unicode property
/// `White_Space`.
pub open spec fn is_space(c: char) -> bool {
    ||| '\u{9}' <= c <= '\u{d}'
    ||| c == ' '
    ||| c == '\u{85}'
    ||| c == '\u{a0}'
    ||| c == '\u{1680}'
    ||| '\u{2000}' <= c <= '\u{200a}'
    ||| c == '\u{2028}'
    ||| c == '\u{2029}'
    ||| c == '\u{202f}'
    ||| c == '\u{205f}'
    ||| c == '\u{3000}'
}

/// Whether no character of `s` is white space.
pub open spec fn no_space(s: Seq<char>) -> bool {
    forall|i: int| 0 <= i < s.len() ==> !is_space(#[trigger] s[i])
}

/// Whether `s` is a word: not empty, and without white space.
pub open spec fn is_word(s: Seq<char>) -> bool {
    s.len() > 0 && no_space(s)
}

/// The words of `words` in a row, with one blank between neighbours.
pub open spec fn joined(words: Seq<Seq<char>>) -> Seq<char>
    decreases words.len(),
{
    if words.len() == 0 {
        Seq::empty()
    } else if words.len() == 1 {
        words.first()
    } else {
        words.first() + seq![' '] + joined(words.drop_first())
    }
}

/// The length of the longest prefix of `s` that holds no white space.
pub open spec fn word_len(s: Seq<char>) -> nat
    decreases s.len(),
{
    if s.len() == 0 || is_space(s.first()) {
        0
    } else {
        1 + word_len(s.drop_first())
    }
}

/// The tokens of `s`: its maximal runs of characters other than white space,
/// in the order in which they occur.
pub open spec fn tokens(s: Seq<char>) -> Seq<Seq<char>>
    decreases s.len(),
{
    if s.len() == 0 {
        Seq::empty()
    } else if is_space(s.first()) {
        tokens(s.drop_first())
    } else {
        proof {
            lemma_word_len_bounds(s);
        }
        seq![s.take(word_len(s) as int)] + tokens(s.skip(word_len(s) as int))
    }
}

/// `s` without its leading white space.
pub open spec fn trim_start(s: Seq<char>) -> Seq<char>
    decreases s.len(),
{
    if s.len() > 0 && is_space(s.first()) {
        trim_start(s.drop_first())
    } else {
        s
    }
}

/// `s` without its trailing white space.
pub open spec fn trim_end(s: Seq<char>) -> Seq<char>
    decreases s.len(),
{
    if s.len() > 0 && is_space(s.last()) {
        trim_end(s.drop_last())
    } else {
        s
    }
}

/// `s` without its leading and trailing white space.
pub open spec fn trimmed(s: Seq<char>) -> Seq<char> {
    trim_end(trim_start(s))
}

/// The texts of a list of string slices.
pub open spec fn texts(v: Seq<&str>) -> Seq<Seq<char>> {
    v.map_values(|t: &str| t@)
}

/// A word is no longer than the text it starts, and a text that starts with
/// a character other than white space starts with a word of at least one
/// character.
pub proof fn lemma_word_len_bounds(s: Seq<char>)
    ensures
        word_len(s) <= s.len(),
        s.len() > 0 && !is_space(s.first()) ==> word_len(s) >= 1,
    decreases s.len(),
{
    if s.len() > 0 && !is_space(s.first()) {
        lemma_word_len_bounds(s.drop_first());
    }
}

/// The word at the start of `s` ends at `m` when the first `m` characters
/// hold no white space and the text ends there or goes on with white space.
pub proof fn lemma_word_len_is(s: Seq<char>, m: int)
    requires
        0 <= m <= s.len(),
        no_space(s.take(m)),
        m == s.len() || is_space(s[m]),
    ensures
        word_len(s) == m,
    decreases m,
{
    if m > 0 {
        assert(s.take(m)[0] == s[0]);
        let rest = s.drop_first();
        assert forall|i: int| 0 <= i < m - 1 implies !is_space(#[trigger] rest.take(m - 1)[i]) by {
            assert(rest.take(m - 1)[i] == s.take(m)[i + 1]);
        }
        lemma_word_len_is(rest, m - 1);
    }
}

/// A word at the start of a text, with white space or nothing after it, is
/// the first token of the text, and the other tokens are those of what
/// follows the word.
pub proof fn lemma_tokens_after_word(word: Seq<char>, rest: Seq<char>)
    requires
        is_word(word),
        rest.len() == 0 || is_space(rest.first()),
    ensures
        tokens(word + rest) == seq![word] + tokens(rest),
{
    let s = word + rest;
    assert(s.first() == word[0]);
    assert(s.take(word.len() as int) == word);
    assert(s.skip(word.len() as int) == rest);
    lemma_word_len_is(s, word.len() as int);
}

/// Splitting a row of words that single blanks join gives the words back.
pub proof fn lemma_tokens_of_joined(words: Seq<Seq<char>>)
    requires
        forall|i: int| 0 <= i < words.len() ==> is_word(#[trigger] words[i]),
    ensures
        tokens(joined(words)) == words,
    decreases words.len(),
{
    if words.len() == 1 {
        assert(words.first() + Seq::<char>::empty() == words.first());
        lemma_tokens_after_word(words.first(), Seq::empty());
        assert(tokens(Seq::<char>::empty()) == Seq::<Seq<char>>::empty());
        assert(seq![words.first()] == words);
    } else if words.len() > 1 {
        let others = words.drop_first();
        let rest = seq![' '] + joined(others);
        assert forall|i: int| 0 <= i < others.len() implies is_word(#[trigger] others[i]) by {
            assert(others[i] == words[i + 1]);
        }
        lemma_tokens_of_joined(others);
        assert(rest.drop_first() == joined(others));
        assert(tokens(rest) == others);
        assert(joined(words) == words.first() + rest);
        lemma_tokens_after_word(words.first(), rest);
        assert(seq![words.first()] + others == words);
    }
}

/// The word at the start of a text holds no white space, and the text ends
/// with it or goes on with white space.
pub proof fn lemma_word_len_ends_word(s: Seq<char>)
    ensures
        no_space(s.take(word_len(s) as int)),
        word_len(s) == s.len() || is_space(s[word_len(s) as int]),
    decreases s.len(),
{
    lemma_word_len_bounds(s);
    if s.len() > 0 && !is_space(s.first()) {
        let rest = s.drop_first();
        lemma_word_len_ends_word(rest);
        lemma_word_len_bounds(rest);
        let n = word_len(s) as int;
        assert forall|i: int| 0 <= i < n implies !is_space(#[trigger] s.take(n)[i]) by {
            if i > 0 {
                assert(s.take(n)[i] == rest.take(n - 1)[i - 1]);
            }
        }
        if n < s.len() {
            assert(s[n] == rest[n - 1]);
        }
    }
}

/// White space at the end of a text adds no token.
pub proof fn lemma_tokens_trailing_space(s: Seq<char>, c: char)
    requires
        is_space(c),
    ensures
        tokens(s.push(c)) == tokens(s),
    decreases s.len(),
{
    let t = s.push(c);
    if s.len() == 0 {
        assert(t.drop_first() == s);
    } else if is_space(s.first()) {
        assert(t.drop_first() == s.drop_first().push(c));
        lemma_tokens_trailing_space(s.drop_first(), c);
    } else {
        let n = word_len(s) as int;
        lemma_word_len_bounds(s);
        lemma_word_len_ends_word(s);
        assert(t.take(n) == s.take(n));
        lemma_word_len_is(t, n);
        assert(t.skip(n) == s.skip(n).push(c));
        lemma_tokens_trailing_space(s.skip(n), c);
    }
}

/// Leading white space adds no token.
pub proof fn lemma_tokens_of_trim_start(s: Seq<char>)
    ensures
        tokens(trim_start(s)) == tokens(s),
    decreases s.len(),
{
    if s.len() > 0 && is_space(s.first()) {
        lemma_tokens_of_trim_start(s.drop_first());
    }
}

/// Trailing white space adds no token.
pub proof fn lemma_tokens_of_trim_end(s: Seq<char>)
    ensures
        tokens(trim_end(s)) == tokens(s),
    decreases s.len(),
{
    if s.len() > 0 && is_space(s.last()) {
        lemma_tokens_of_trim_end(s.drop_last());
        assert(s.drop_last().push(s.last()) == s);
        lemma_tokens_trailing_space(s.drop_last(), s.last());
    }
}

/// White space around a text adds no token: a text and the text without its
/// leading and trailing white space have the same tokens.
pub proof fn lemma_tokens_of_trimmed(s: Seq<char>)
    ensures
        tokens(trimmed(s)) == tokens(s),
{
    lemma_tokens_of_trim_start(s);
    lemma_tokens_of_trim_end(trim_start(s));
}

/// A word has no white space around it to strip.
pub proof fn lemma_trimmed_word(word: Seq<char>)
    requires
        is_word(word),
    ensures
        trimmed(word) == word,
{
    assert(!is_space(word[0]));
    assert(!is_space(word[word.len() - 1]));
}

/// Whether `c` is white space.
pub fn is_whitespace(c: char) -> (b: bool)
    ensures
        b == is_space(c),
{
    ('\u{9}' <= c && c <= '\u{d}') || c == ' ' || c == '\u{85}' || c == '\u{a0}' || c == '\u{1680}'
        || ('\u{2000}' <= c && c <= '\u{200a}') || c == '\u{2028}' || c == '\u{2029}' || c
        == '\u{202f}' || c == '\u{205f}' || c == '\u{3000}'
}

/// The characters of `s`, in order.
pub fn chars_of(s: &str) -> (v: Vec<char>)
    ensures
        v@ == s@,
{
    let mut v: Vec<char> = Vec::new();
    for c in it: s.chars()
        invariant
            v@ == it.seq().take(it.index() as int),
            it.seq() == s@,
    {
        v.push(c);
    }
    v
}

/// Whether two string slices hold the same text.
pub fn same_text(a: &str, b: &str) -> (r: bool)
    ensures
        r == (a@ == b@),
{
    let x = chars_of(a);
    let y = chars_of(b);
    if x.len() != y.len() {
        return false;
    }
    let mut i: usize = 0;
    while i < x.len()
        invariant
            x@ == a@,
            y@ == b@,
            x.len() == y.len(),
            i <= x.len(),
            a@.take(i as int) == b@.take(i as int),
        decreases x.len() - i,
    {
        if x[i] != y[i] {
            return false;
        }
        assert(a@.take(i + 1) == a@.take(i as int).push(a@[i as int]));
        assert(b@.take(i + 1) == b@.take(i as int).push(b@[i as int]));
        i = i + 1;
    }
    assert(a@.take(i as int) == a@ && b@.take(i as int) == b@);
    true
}

/// Splits `s` into its tokens.
pub fn split_whitespace<'a>(s: &'a str) -> (r: Vec<&'a str>)
    ensures
        texts(r@) == tokens(s@),
{
    let chars = chars_of(s);
    let n: usize = chars.len();
    let mut out: Vec<&'a str> = Vec::new();
    let mut i: usize = 0;
    assert(s@.skip(0) == s@);
    while i < n
        invariant
            chars@ == s@,
            n == s@.len(),
            i <= n,
            tokens(s@) == texts(out@) + tokens(s@.skip(i as int)),
        decreases n - i,
    {
        let ghost rest = s@.skip(i as int);
        if is_whitespace(chars[i]) {
            assert(rest.drop_first() == s@.skip(i + 1));
            i = i + 1;
        } else {
            let start: usize = i;
            while i < n && !is_whitespace(chars[i])
                invariant
                    chars@ == s@,
                    n == s@.len(),
                    start <= i <= n,
                    no_space(s@.subrange(start as int, i as int)),
                decreases n - i,
            {
                let ghost before = s@.subrange(start as int, i as int);
                i = i + 1;
                assert forall|k: int| 0 <= k < i - start implies !is_space(
                    #[trigger] s@.subrange(start as int, i as int)[k],
                ) by {
                    if k < i - start - 1 {
                        assert(before[k] == s@[start + k]);
                    }
                }
            }
            let word = s.substring_char(start, i);
            proof {
                assert(rest.take(i - start) == s@.subrange(start as int, i as int));
                lemma_word_len_is(rest, i - start);
                assert(rest.skip(i - start) == s@.skip(i as int));
                assert(texts(out@.push(word)) == texts(out@) + seq![word@]);
            }
            out.push(word);
        }
    }
    assert(s@.skip(n as int) == Seq::<char>::empty());
    out
}

/// Strips leading and trailing white space from `s`.
pub fn trim<'a>(s: &'a str) -> (r: &'a str)
    ensures
        r@ == trimmed(s@),
{
    let chars = chars_of(s);
    let n: usize = chars.len();
    let mut start: usize = 0;
    assert(s@.skip(0) == s@);
    while start < n && is_whitespace(chars[start])
        invariant
            chars@ == s@,
            n == s@.len(),
            start <= n,
            trim_start(s@) == trim_start(s@.skip(start as int)),
        decreases n - start,
    {
        assert(s@.skip(start as int).drop_first() == s@.skip(start + 1));
        start = start + 1;
    }
    let mut end: usize = n;
    assert(s@.subrange(start as int, n as int) == s@.skip(start as int));
    while end > start && is_whitespace(chars[end - 1])
        invariant
            chars@ == s@,
            n == s@.len(),
            start <= end <= n,
            trimmed(s@) == trim_end(s@.subrange(start as int, end as int)),
        decreases end,
    {
        assert(s@.subrange(start as int, end as int).drop_last() == s@.subrange(
            start as int,
            end - 1,
        ));
        end = end - 1;
    }
    s.substring_char(start, end)
}

} // verus!
