//! Command templates: free text that names a program and its fixed arguments.
//!
//! A template is cut into tokens at ASCII whitespace and nowhere else: there is
//! no quoting and no escaping, so an argument that holds a space cannot be
//! written.

use vstd::prelude::*;
use crate::text::{chars_of, Text};

verus! {

/// The ASCII whitespace characters: space, tab, line feed, form feed and
/// carriage return.
pub open spec fn is_space(c: char) -> bool {
    c == ' ' || c == '\t' || c == '\n' || c == '\u{000C}' || c == '\r'
}

/// The length of the longest prefix of `s` that holds no whitespace.
pub open spec fn word_len(s: Text) -> int
    decreases s.len(),
{
    if s.len() == 0 || is_space(s[0]) {
        0
    } else {
        1 + word_len(s.drop_first())
    }
}

/// The tokens of `s`: its maximal runs of characters that are not whitespace,
/// from left to right.
pub open spec fn tokens(s: Text) -> Seq<Text>
    decreases s.len(),
{
    if s.len() == 0 {
        Seq::empty()
    } else if is_space(s[0]) {
        tokens(s.drop_first())
    } else {
        proof {
            lemma_word_len_bounds(s);
        }
        seq![s.take(word_len(s))] + tokens(s.skip(word_len(s)))
    }
}

/// The program that a template names: its first token, or the empty string
/// when it has none.
pub open spec fn program_of(s: Text) -> Text {
    if tokens(s).len() == 0 {
        Seq::empty()
    } else {
        tokens(s)[0]
    }
}

/// The fixed arguments of a template: its tokens after the first.
pub open spec fn arguments_of(s: Text) -> Seq<Text> {
    if tokens(s).len() == 0 {
        Seq::empty()
    } else {
        tokens(s).skip(1)
    }
}

/// A word ends where the text ends or the next whitespace stands.
pub proof fn lemma_word_len(s: Text, n: int)
    requires
        0 <= n <= s.len(),
        forall|i: int| 0 <= i < n ==> !is_space(#[trigger] s[i]),
        n == s.len() || is_space(s[n]),
    ensures
        word_len(s) == n,
    decreases n,
{
    if n > 0 {
        let rest = s.drop_first();
        assert forall|i: int| 0 <= i < n - 1 implies !is_space(#[trigger] rest[i]) by {
            assert(rest[i] == s[i + 1]);
        }
        lemma_word_len(rest, n - 1);
    }
}

/// A word is never longer than the text, and is empty only where the text is
/// empty or starts with whitespace.
pub proof fn lemma_word_len_bounds(s: Text)
    ensures
        0 <= word_len(s) <= s.len(),
        forall|i: int| 0 <= i < word_len(s) ==> !is_space(#[trigger] s[i]),
        word_len(s) == s.len() || is_space(s[word_len(s)]),
    decreases s.len(),
{
    if s.len() != 0 && !is_space(s[0]) {
        let rest = s.drop_first();
        lemma_word_len_bounds(rest);
        assert forall|i: int| 0 <= i < word_len(s) implies !is_space(#[trigger] s[i]) by {
            if i > 0 {
                assert(s[i] == rest[i - 1]);
            }
        }
        if word_len(s) != s.len() {
            assert(s[word_len(s)] == rest[word_len(rest)]);
        }
    }
}

/// True when `word` holds at least one character and no whitespace.
pub open spec fn is_word(word: Text) -> bool {
    word.len() > 0 && forall|i: int| 0 <= i < word.len() ==> !is_space(#[trigger] word[i])
}

/// Every token holds at least one character and no whitespace.
pub proof fn lemma_tokens_are_words(s: Text)
    ensures
        forall|k: int| 0 <= k < tokens(s).len() ==> is_word(#[trigger] tokens(s)[k]),
    decreases s.len(),
{
    if s.len() == 0 {
        assert(tokens(s).len() == 0);
    } else if is_space(s[0]) {
        lemma_tokens_are_words(s.drop_first());
        assert(tokens(s) == tokens(s.drop_first()));
    } else {
        lemma_word_len_bounds(s);
        let n = word_len(s);
        let first = s.take(n);
        assert(tokens(s) == seq![first] + tokens(s.skip(n)));
        let rest = tokens(s.skip(n));
        lemma_tokens_are_words(s.skip(n));
        assert(is_word(first)) by {
            assert forall|i: int| 0 <= i < first.len() implies !is_space(#[trigger] first[i]) by {
                assert(first[i] == s[i]);
            }
        }
        assert forall|k: int| 0 <= k < tokens(s).len() implies is_word(#[trigger] tokens(s)[k]) by {
            if k == 0 {
                assert(tokens(s)[0] == first);
            } else {
                assert(tokens(s)[k] == rest[k - 1]);
            }
        }
    }
}

/// The words of `words` with one space between each two.
pub open spec fn joined(words: Seq<Text>) -> Text
    decreases words.len(),
{
    if words.len() == 0 {
        Seq::empty()
    } else if words.len() == 1 {
        words[0]
    } else {
        words[0] + seq![' '] + joined(words.skip(1))
    }
}

/// Words set one space apart are cut into those very words.
pub proof fn lemma_tokens_of_joined(words: Seq<Text>)
    requires
        forall|k: int| 0 <= k < words.len() ==> is_word(#[trigger] words[k]),
    ensures
        tokens(joined(words)) == words,
    decreases words.len(),
{
    let s = joined(words);
    if words.len() == 0 {
        assert(tokens(s) =~= words);
    } else {
        let first = words[0];
        assert(is_word(first));
        assert(!is_space(first[0]));
        if words.len() == 1 {
            lemma_word_len(s, s.len() as int);
            assert(s.take(s.len() as int) =~= s);
            assert(s.skip(s.len() as int) =~= Seq::<char>::empty());
            assert(tokens(Seq::<char>::empty()).len() == 0);
            assert(tokens(s) == seq![s.take(word_len(s))] + tokens(s.skip(word_len(s))));
            assert(tokens(s) =~= seq![first]);
            assert(words =~= seq![first]);
        } else {
            let rest = words.skip(1);
            let tail = joined(rest);
            assert forall|k: int| 0 <= k < rest.len() implies is_word(#[trigger] rest[k]) by {
                assert(rest[k] == words[k + 1]);
            }
            lemma_tokens_of_joined(rest);
            let n = first.len() as int;
            assert forall|i: int| 0 <= i < n implies !is_space(#[trigger] s[i]) by {
                assert(s[i] == first[i]);
            }
            assert(s[n] == ' ');
            assert(s[0] == first[0]);
            lemma_word_len(s, n);
            assert(s.take(n) =~= first);
            let after = s.skip(n);
            assert(after =~= seq![' '] + tail);
            assert(after.drop_first() =~= tail);
            assert(tokens(after) == tokens(tail));
            assert(tokens(s) =~= seq![first] + rest);
            assert(seq![first] + rest =~= words);
        }
    }
}

/// Text that is whitespace throughout has no tokens.
pub proof fn lemma_blank_has_no_tokens(s: Text)
    requires
        forall|i: int| 0 <= i < s.len() ==> is_space(#[trigger] s[i]),
    ensures
        tokens(s).len() == 0,
    decreases s.len(),
{
    if s.len() != 0 {
        let rest = s.drop_first();
        assert forall|i: int| 0 <= i < rest.len() implies is_space(#[trigger] rest[i]) by {
            assert(rest[i] == s[i + 1]);
        }
        lemma_blank_has_no_tokens(rest);
    }
}

/// Tells whether `c` is ASCII whitespace.
pub fn is_ascii_space(c: char) -> (space: bool)
    ensures
        space == is_space(c),
{
    c == ' ' || c == '\t' || c == '\n' || c == '\u{000C}' || c == '\r'
}

/// Cuts `template` into its tokens.
pub fn tokenize(template: &str) -> (out: Vec<String>)
    ensures
        out.deep_view() == tokens(template@),
{
    let chars = chars_of(template);
    let n = chars.len();
    let mut out: Vec<String> = Vec::new();
    let mut i: usize = 0;
    assert(template@.skip(0) =~= template@);
    assert(out.deep_view() + tokens(template@) =~= tokens(template@));
    while i < n
        invariant
            chars@ == template@,
            n == chars@.len(),
            i <= n,
            tokens(template@) == out.deep_view() + tokens(template@.skip(i as int)),
        decreases n - i,
    {
        let ghost rest = template@.skip(i as int);
        if is_ascii_space(chars[i]) {
            assert(rest.drop_first() =~= template@.skip(i + 1));
            i += 1;
        } else {
            let mut j: usize = i + 1;
            while j < n && !is_ascii_space(chars[j])
                invariant
                    chars@ == template@,
                    n == chars@.len(),
                    i < j <= n,
                    forall|k: int| i <= k < j ==> !is_space(#[trigger] template@[k]),
                decreases n - j,
            {
                j += 1;
            }
            proof {
                assert forall|k: int| 0 <= k < j - i implies !is_space(#[trigger] rest[k]) by {
                    assert(rest[k] == template@[i + k]);
                }
                lemma_word_len(rest, j - i);
                assert(rest.take(j - i) =~= template@.subrange(i as int, j as int));
                assert(rest.skip(j - i) =~= template@.skip(j as int));
            }
            let ghost before = out.deep_view();
            let token = template.substring_char(i, j).to_owned();
            out.push(token);
            assert(out.deep_view() =~= before + seq![template@.subrange(i as int, j as int)]);
            i = j;
        }
    }
    assert(template@.skip(n as int) =~= Seq::<char>::empty());
    assert(out.deep_view() + Seq::<Text>::empty() =~= out.deep_view());
    out
}

} // verus!
