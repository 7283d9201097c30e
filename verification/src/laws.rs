//! Laws that relate validation, classification and annotation.

use vstd::prelude::*;

use crate::category::spec_classify;
use crate::category::starts_with;
use crate::category::Category;
use crate::grammar::delim_pos;
use crate::grammar::is_conventional;
use crate::grammar::is_scope_char;
use crate::grammar::is_subject_char;
use crate::grammar::is_word_char;
use crate::grammar::lemma_delim_props;
use crate::grammar::lemma_scope_run_end_is;
use crate::grammar::lemma_word_run_end_is;
use crate::message::annotated;

verus! {

/// Every category label is a non-empty run of word characters.
proof fn lemma_label_chars(c: Category)
    ensures
        c.label().len() > 0,
        forall|k: int| 0 <= k < c.label().len() ==> is_word_char(#[trigger] c.label()[k]),
{
    reveal_strlit("build");
    reveal_strlit("chore");
    reveal_strlit("ci");
    reveal_strlit("docs");
    reveal_strlit("feat");
    reveal_strlit("fix");
    reveal_strlit("perf");
    reveal_strlit("refactor");
    reveal_strlit("revert");
    reveal_strlit("style");
    reveal_strlit("test");
    match c {
        Category::Build => {
            assert("build"@ =~= seq!['b', 'u', 'i', 'l', 'd']);
        },
        Category::Chore => {
            assert("chore"@ =~= seq!['c', 'h', 'o', 'r', 'e']);
        },
        Category::Ci => {
            assert("ci"@ =~= seq!['c', 'i']);
        },
        Category::Docs => {
            assert("docs"@ =~= seq!['d', 'o', 'c', 's']);
        },
        Category::Feat => {
            assert("feat"@ =~= seq!['f', 'e', 'a', 't']);
        },
        Category::Fix => {
            assert("fix"@ =~= seq!['f', 'i', 'x']);
        },
        Category::Perf => {
            assert("perf"@ =~= seq!['p', 'e', 'r', 'f']);
        },
        Category::Refactor => {
            assert("refactor"@ =~= seq!['r', 'e', 'f', 'a', 'c', 't', 'o', 'r']);
        },
        Category::Revert => {
            assert("revert"@ =~= seq!['r', 'e', 'v', 'e', 'r', 't']);
        },
        Category::Style => {
            assert("style"@ =~= seq!['s', 't', 'y', 'l', 'e']);
        },
        Category::Test => {
            assert("test"@ =~= seq!['t', 'e', 's', 't']);
        },
    }
}

/// A message built as `label(scope): subject` from a non-empty word-character
/// label, a non-empty scope and a subject that opens with a word-or-space
/// character parses with its delimiter right after the closing parenthesis.
proof fn lemma_form_parses(lab: Seq<char>, scope: Seq<char>, subject: Seq<char>)
    requires
        lab.len() > 0,
        forall|k: int| 0 <= k < lab.len() ==> is_word_char(lab[k]),
        scope.len() > 0,
        forall|k: int| 0 <= k < scope.len() ==> is_scope_char(scope[k]),
        subject.len() > 0,
        is_subject_char(subject[0]),
    ensures
        ({
            let s = lab + seq!['('] + scope + seq![')', ':', ' '] + subject;
            delim_pos(s) == Some(lab.len() + scope.len() + 2 as int) && is_conventional(s)
        }),
{
    let s = lab + seq!['('] + scope + seq![')', ':', ' '] + subject;
    let l = lab.len() as int;
    let m = scope.len() as int;
    assert(s.len() == l + m + 4 + subject.len());
    assert(forall|k: int| 0 <= k < l ==> s[k] == lab[k]);
    assert(s[l] == '(');
    assert(forall|k: int| l + 1 <= k < l + 1 + m ==> s[k] == scope[k - (l + 1)]);
    assert(s[l + 1 + m] == ')');
    assert(s[l + 2 + m] == ':');
    assert(s[l + 3 + m] == ' ');
    assert(s[l + 4 + m] == subject[0]);
    assert(!is_word_char('('));
    assert(!is_scope_char(')'));
    lemma_word_run_end_is(s, 0, l);
    lemma_scope_run_end_is(s, l + 1, l + 1 + m);
}

/// Every message of the form `label(scope): subject` whose label names one
/// of the eleven categories, whose scope is one or more scope characters and
/// whose subject is one or more word-or-space characters is conventional and
/// classifies to that label's category.
pub proof fn lemma_known_forms_validate(c: Category, scope: Seq<char>, subject: Seq<char>)
    requires
        scope.len() > 0,
        forall|k: int| 0 <= k < scope.len() ==> is_scope_char(scope[k]),
        subject.len() > 0,
        forall|k: int| 0 <= k < subject.len() ==> is_subject_char(subject[k]),
    ensures
        ({
            let s = c.label() + seq!['('] + scope + seq![')', ':', ' '] + subject;
            is_conventional(s) && spec_classify(s) == Some(c)
        }),
{
    lemma_label_chars(c);
    lemma_form_parses(c.label(), scope, subject);
    let s = c.label() + seq!['('] + scope + seq![')', ':', ' '] + subject;
    assert(forall|k: int| 0 <= k < c.label().len() ==> s[k] == c.label()[k]);
    assert(starts_with(s, c.label()));
    reveal_strlit("build");
    reveal_strlit("chore");
    reveal_strlit("ci");
    reveal_strlit("docs");
    reveal_strlit("feat");
    reveal_strlit("fix");
    reveal_strlit("perf");
    reveal_strlit("refactor");
    reveal_strlit("revert");
    reveal_strlit("style");
    reveal_strlit("test");
    match c {
        Category::Build => {
        },
        Category::Chore => {
            assert(!starts_with(s, "build"@)) by { assert(s[0] == 'c' && "build"@[0] == 'b') };
        },
        Category::Ci => {
            assert(!starts_with(s, "build"@)) by { assert(s[0] == 'c' && "build"@[0] == 'b') };
            assert(!starts_with(s, "chore"@)) by { assert(s[1] == 'i' && "chore"@[1] == 'h') };
        },
        Category::Docs => {
            assert(!starts_with(s, "build"@)) by { assert(s[0] == 'd' && "build"@[0] == 'b') };
            assert(!starts_with(s, "chore"@)) by { assert(s[0] == 'd' && "chore"@[0] == 'c') };
            assert(!starts_with(s, "ci"@)) by { assert(s[0] == 'd' && "ci"@[0] == 'c') };
        },
        Category::Feat => {
            assert(!starts_with(s, "build"@)) by { assert(s[0] == 'f' && "build"@[0] == 'b') };
            assert(!starts_with(s, "chore"@)) by { assert(s[0] == 'f' && "chore"@[0] == 'c') };
            assert(!starts_with(s, "ci"@)) by { assert(s[0] == 'f' && "ci"@[0] == 'c') };
            assert(!starts_with(s, "docs"@)) by { assert(s[0] == 'f' && "docs"@[0] == 'd') };
        },
        Category::Fix => {
            assert(!starts_with(s, "build"@)) by { assert(s[0] == 'f' && "build"@[0] == 'b') };
            assert(!starts_with(s, "chore"@)) by { assert(s[0] == 'f' && "chore"@[0] == 'c') };
            assert(!starts_with(s, "ci"@)) by { assert(s[0] == 'f' && "ci"@[0] == 'c') };
            assert(!starts_with(s, "docs"@)) by { assert(s[0] == 'f' && "docs"@[0] == 'd') };
            assert(!starts_with(s, "feat"@)) by { assert(s[1] == 'i' && "feat"@[1] == 'e') };
        },
        Category::Perf => {
            assert(!starts_with(s, "build"@)) by { assert(s[0] == 'p' && "build"@[0] == 'b') };
            assert(!starts_with(s, "chore"@)) by { assert(s[0] == 'p' && "chore"@[0] == 'c') };
            assert(!starts_with(s, "ci"@)) by { assert(s[0] == 'p' && "ci"@[0] == 'c') };
            assert(!starts_with(s, "docs"@)) by { assert(s[0] == 'p' && "docs"@[0] == 'd') };
            assert(!starts_with(s, "feat"@)) by { assert(s[0] == 'p' && "feat"@[0] == 'f') };
            assert(!starts_with(s, "fix"@)) by { assert(s[0] == 'p' && "fix"@[0] == 'f') };
        },
        Category::Refactor => {
            assert(!starts_with(s, "build"@)) by { assert(s[0] == 'r' && "build"@[0] == 'b') };
            assert(!starts_with(s, "chore"@)) by { assert(s[0] == 'r' && "chore"@[0] == 'c') };
            assert(!starts_with(s, "ci"@)) by { assert(s[0] == 'r' && "ci"@[0] == 'c') };
            assert(!starts_with(s, "docs"@)) by { assert(s[0] == 'r' && "docs"@[0] == 'd') };
            assert(!starts_with(s, "feat"@)) by { assert(s[0] == 'r' && "feat"@[0] == 'f') };
            assert(!starts_with(s, "fix"@)) by { assert(s[0] == 'r' && "fix"@[0] == 'f') };
            assert(!starts_with(s, "perf"@)) by { assert(s[0] == 'r' && "perf"@[0] == 'p') };
        },
        Category::Revert => {
            assert(!starts_with(s, "build"@)) by { assert(s[0] == 'r' && "build"@[0] == 'b') };
            assert(!starts_with(s, "chore"@)) by { assert(s[0] == 'r' && "chore"@[0] == 'c') };
            assert(!starts_with(s, "ci"@)) by { assert(s[0] == 'r' && "ci"@[0] == 'c') };
            assert(!starts_with(s, "docs"@)) by { assert(s[0] == 'r' && "docs"@[0] == 'd') };
            assert(!starts_with(s, "feat"@)) by { assert(s[0] == 'r' && "feat"@[0] == 'f') };
            assert(!starts_with(s, "fix"@)) by { assert(s[0] == 'r' && "fix"@[0] == 'f') };
            assert(!starts_with(s, "perf"@)) by { assert(s[0] == 'r' && "perf"@[0] == 'p') };
            assert(!starts_with(s, "refactor"@)) by {
                assert(s[2] == 'v' && "refactor"@[2] == 'f')
            };
        },
        Category::Style => {
            assert(!starts_with(s, "build"@)) by { assert(s[0] == 's' && "build"@[0] == 'b') };
            assert(!starts_with(s, "chore"@)) by { assert(s[0] == 's' && "chore"@[0] == 'c') };
            assert(!starts_with(s, "ci"@)) by { assert(s[0] == 's' && "ci"@[0] == 'c') };
            assert(!starts_with(s, "docs"@)) by { assert(s[0] == 's' && "docs"@[0] == 'd') };
            assert(!starts_with(s, "feat"@)) by { assert(s[0] == 's' && "feat"@[0] == 'f') };
            assert(!starts_with(s, "fix"@)) by { assert(s[0] == 's' && "fix"@[0] == 'f') };
            assert(!starts_with(s, "perf"@)) by { assert(s[0] == 's' && "perf"@[0] == 'p') };
            assert(!starts_with(s, "refactor"@)) by {
                assert(s[0] == 's' && "refactor"@[0] == 'r')
            };
            assert(!starts_with(s, "revert"@)) by { assert(s[0] == 's' && "revert"@[0] == 'r') };
        },
        Category::Test => {
            assert(!starts_with(s, "build"@)) by { assert(s[0] == 't' && "build"@[0] == 'b') };
            assert(!starts_with(s, "chore"@)) by { assert(s[0] == 't' && "chore"@[0] == 'c') };
            assert(!starts_with(s, "ci"@)) by { assert(s[0] == 't' && "ci"@[0] == 'c') };
            assert(!starts_with(s, "docs"@)) by { assert(s[0] == 't' && "docs"@[0] == 'd') };
            assert(!starts_with(s, "feat"@)) by { assert(s[0] == 't' && "feat"@[0] == 'f') };
            assert(!starts_with(s, "fix"@)) by { assert(s[0] == 't' && "fix"@[0] == 'f') };
            assert(!starts_with(s, "perf"@)) by { assert(s[0] == 't' && "perf"@[0] == 'p') };
            assert(!starts_with(s, "refactor"@)) by {
                assert(s[0] == 't' && "refactor"@[0] == 'r')
            };
            assert(!starts_with(s, "revert"@)) by { assert(s[0] == 't' && "revert"@[0] == 'r') };
            assert(!starts_with(s, "style"@)) by { assert(s[1] == 'e' && "style"@[1] == 't') };
        },
    }
}

/// A conventional message always carries a `": "` delimiter with at least
/// one character beyond it: a message with no colon-space pair, or with
/// nothing after its delimiter, fails validation.
pub proof fn lemma_conventional_needs_subject(s: Seq<char>)
    ensures
        is_conventional(s) ==> exists|d: int|
            0 <= d && d + 2 < s.len() && #[trigger] s[d] == ':' && s[d + 1] == ' ',
{
    if is_conventional(s) {
        lemma_delim_props(s);
        let d = delim_pos(s)->Some_0;
        assert(0 <= d && d + 2 < s.len() && s[d] == ':' && s[d + 1] == ' ');
    }
}

/// Annotation is a pure function of its validated input: the annotated text
/// is fully determined by the message text and its category, with no hidden
/// state.
pub proof fn lemma_annotate_deterministic(s1: Seq<char>, c1: Category, s2: Seq<char>, c2: Category)
    requires
        s1 == s2,
        c1 == c2,
    ensures
        annotated(s1, c1) == annotated(s2, c2),
{
}

} // verus!
