//! The conventional-commit grammar: a leading word token, an optional
//! parenthesized scope, an optional `!` marker, the literal `": "`, then a
//! subject that may begin with one emoji glyph and otherwise opens with a
//! word-or-space character; anything may follow.

use vstd::prelude::*;

use crate::emoji::is_emoji;
use crate::emoji::is_emoji_char;

verus! {

/// A word character: an ASCII letter, an ASCII digit, or an underscore.
pub open spec fn is_word_char(c: char) -> bool {
    ('a' <= c && c <= 'z') || ('A' <= c && c <= 'Z') || ('0' <= c && c <= '9') || c == '_'
}

/// A scope character: a word character, a hyphen, or a dot.
pub open spec fn is_scope_char(c: char) -> bool {
    is_word_char(c) || c == '-' || c == '.'
}

/// A subject character: a word character or a space.
pub open spec fn is_subject_char(c: char) -> bool {
    is_word_char(c) || c == ' '
}

/// End of the run of word characters that starts at `i`.
pub open spec fn word_run_end(s: Seq<char>, i: int) -> int
    decreases s.len() - i,
{
    if i < s.len() && is_word_char(s[i]) {
        word_run_end(s, i + 1)
    } else {
        i
    }
}

/// End of the run of scope characters that starts at `i`.
pub open spec fn scope_run_end(s: Seq<char>, i: int) -> int
    decreases s.len() - i,
{
    if i < s.len() && is_scope_char(s[i]) {
        scope_run_end(s, i + 1)
    } else {
        i
    }
}

/// Index just past the optional parenthesized scope that starts at `i`:
/// `Some(i)` where no scope opens, `Some` of the index after the closing
/// parenthesis where a non-empty scope closes, `None` where one opens and
/// does not close properly.
pub open spec fn scope_end(s: Seq<char>, i: int) -> Option<int> {
    if i < s.len() && s[i] == '(' {
        let j = scope_run_end(s, i + 1);
        if j > i + 1 && j < s.len() && s[j] == ')' {
            Some(j + 1)
        } else {
            None
        }
    } else {
        Some(i)
    }
}

/// Index just past the optional breaking-change marker `!` at `i`.
pub open spec fn bang_end(s: Seq<char>, i: int) -> int {
    if i < s.len() && s[i] == '!' {
        i + 1
    } else {
        i
    }
}

/// Position of the delimiting colon of `s`: the colon of the literal `": "`
/// that follows the leading token, the optional scope and the optional `!`.
/// `None` where the head of the message has no such shape.
pub open spec fn delim_pos(s: Seq<char>) -> Option<int> {
    let t = word_run_end(s, 0);
    if t > 0 {
        match scope_end(s, t) {
            Some(a) => {
                let b = bang_end(s, a);
                if b + 1 < s.len() && s[b] == ':' && s[b + 1] == ' ' {
                    Some(b)
                } else {
                    None
                }
            },
            None => None,
        }
    } else {
        None
    }
}

/// A well-formed subject starts at `i`: either a word-or-space character, or
/// one emoji glyph followed by a word-or-space character. Anything may follow.
pub open spec fn subject_ok(s: Seq<char>, i: int) -> bool {
    ||| i < s.len() && is_subject_char(s[i])
    ||| i + 1 < s.len() && is_emoji(s[i]) && is_subject_char(s[i + 1])
}

/// `s` matches the conventional-commit grammar.
pub open spec fn is_conventional(s: Seq<char>) -> bool {
    match delim_pos(s) {
        Some(b) => subject_ok(s, b + 2),
        None => false,
    }
}

/// A word-or-space character is a word character or a space.
fn subject_char(c: char) -> (r: bool)
    ensures
        r == is_subject_char(c),
{
    word_char(c) || c == ' '
}

/// A word character: an ASCII letter, an ASCII digit, or an underscore.
fn word_char(c: char) -> (r: bool)
    ensures
        r == is_word_char(c),
{
    ('a' <= c && c <= 'z') || ('A' <= c && c <= 'Z') || ('0' <= c && c <= '9') || c == '_'
}

/// A scope character: a word character, a hyphen, or a dot.
fn scope_char(c: char) -> (r: bool)
    ensures
        r == is_scope_char(c),
{
    word_char(c) || c == '-' || c == '.'
}

/// Whether `s` matches the conventional-commit grammar.
pub(crate) fn validate(s: &str) -> (r: bool)
    ensures
        r == is_conventional(s@),
{
    let n = s.unicode_len();

    // The leading word token.
    let mut i: usize = 0;
    while i < n && word_char(s.get_char(i))
        invariant
            n == s@.len(),
            i <= n,
            forall|k: int| 0 <= k < i ==> is_word_char(s@[k]),
        decreases n - i,
    {
        i += 1;
    }
    proof {
        lemma_word_run_end_is(s@, 0, i as int);
    }
    if i == 0 {
        return false;
    }

    // The optional parenthesized scope.
    let mut j: usize = i;
    if j < n && s.get_char(j) == '(' {
        let mut k: usize = j + 1;
        while k < n && scope_char(s.get_char(k))
            invariant
                n == s@.len(),
                j + 1 <= k <= n,
                forall|m: int| j + 1 <= m < k ==> is_scope_char(s@[m]),
            decreases n - k,
        {
            k += 1;
        }
        proof {
            lemma_scope_run_end_is(s@, j as int + 1, k as int);
        }
        if k == j + 1 {
            return false;
        }
        if !(k < n && s.get_char(k) == ')') {
            return false;
        }
        j = k + 1;
    }

    // The optional breaking-change marker.
    if j < n && s.get_char(j) == '!' {
        j += 1;
    }

    // The literal ": ".
    if !(j < n && s.get_char(j) == ':') {
        return false;
    }
    if !(j + 1 < n && s.get_char(j + 1) == ' ') {
        return false;
    }

    // The subject: optionally one emoji glyph, then a word-or-space character.
    let p: usize = j + 2;
    if p < n {
        if subject_char(s.get_char(p)) {
            return true;
        }
        if p + 1 < n && is_emoji_char(s.get_char(p)) && subject_char(s.get_char(p + 1)) {
            return true;
        }
    }
    false
}

/// A word run ends exactly at the first position that is out of range or
/// holds no word character.
pub proof fn lemma_word_run_end_is(s: Seq<char>, i: int, e: int)
    requires
        0 <= i <= e <= s.len(),
        forall|k: int| i <= k < e ==> is_word_char(s[k]),
        e < s.len() ==> !is_word_char(s[e]),
    ensures
        word_run_end(s, i) == e,
    decreases e - i,
{
    if i < e {
        lemma_word_run_end_is(s, i + 1, e);
    }
}

/// Every character strictly inside a word run is a word character, and the
/// run stays within bounds.
pub proof fn lemma_word_run_chars(s: Seq<char>, i: int)
    requires
        0 <= i <= s.len(),
    ensures
        i <= word_run_end(s, i) <= s.len(),
        forall|k: int| i <= k < word_run_end(s, i) ==> is_word_char(s[k]),
    decreases s.len() - i,
{
    if i < s.len() && is_word_char(s[i]) {
        lemma_word_run_chars(s, i + 1);
    }
}

/// A scope run ends exactly at the first position that is out of range or
/// holds no scope character.
pub proof fn lemma_scope_run_end_is(s: Seq<char>, i: int, e: int)
    requires
        0 <= i <= e <= s.len(),
        forall|k: int| i <= k < e ==> is_scope_char(s[k]),
        e < s.len() ==> !is_scope_char(s[e]),
    ensures
        scope_run_end(s, i) == e,
    decreases e - i,
{
    if i < e {
        lemma_scope_run_end_is(s, i + 1, e);
    }
}

/// Every character strictly inside a scope run is a scope character, and the
/// run stays within bounds.
pub proof fn lemma_scope_run_chars(s: Seq<char>, i: int)
    requires
        0 <= i <= s.len(),
    ensures
        i <= scope_run_end(s, i) <= s.len(),
        forall|k: int| i <= k < scope_run_end(s, i) ==> is_scope_char(s[k]),
    decreases s.len() - i,
{
    if i < s.len() && is_scope_char(s[i]) {
        lemma_scope_run_chars(s, i + 1);
    }
}

/// The delimiting colon is the first colon of the message, a space follows
/// it, and a conventional message holds at least one character beyond that
/// space.
pub proof fn lemma_delim_props(s: Seq<char>)
    ensures
        delim_pos(s) matches Some(d) ==> {
            &&& 0 < d
            &&& d + 1 < s.len()
            &&& s[d] == ':'
            &&& s[d + 1] == ' '
            &&& forall|k: int| 0 <= k < d ==> s[k] != ':'
        },
        is_conventional(s) ==> (delim_pos(s) matches Some(d) && d + 2 < s.len()),
{
    assert(!is_word_char(':'));
    assert(!is_scope_char(':'));
    if delim_pos(s) is Some {
        let t = word_run_end(s, 0);
        lemma_word_run_chars(s, 0);
        if t < s.len() && s[t] == '(' {
            lemma_scope_run_chars(s, t + 1);
        }
    }
}

} // verus!
