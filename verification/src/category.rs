//! The closed set of commit categories, their labels, and their glyphs.

use vstd::prelude::*;

verus! {

/// One of the eleven known conventional-commit categories.
#[derive(Clone, Copy, Debug, PartialEq, Eq, Structural)]
pub enum Category {
    Build,
    Chore,
    Ci,
    Docs,
    Feat,
    Fix,
    Perf,
    Refactor,
    Revert,
    Style,
    Test,
}

impl Category {
    /// The label token that names this category.
    pub open spec fn label(self) -> Seq<char> {
        match self {
            Category::Build => "build"@,
            Category::Chore => "chore"@,
            Category::Ci => "ci"@,
            Category::Docs => "docs"@,
            Category::Feat => "feat"@,
            Category::Fix => "fix"@,
            Category::Perf => "perf"@,
            Category::Refactor => "refactor"@,
            Category::Revert => "revert"@,
            Category::Style => "style"@,
            Category::Test => "test"@,
        }
    }

    /// The fixed emoji glyph of this category.
    pub open spec fn spec_emoji(self) -> char {
        match self {
            Category::Build => '📦',
            Category::Chore => '🔧',
            Category::Ci => '👷',
            Category::Docs => '📚',
            Category::Feat => '✨',
            Category::Fix => '🐛',
            Category::Perf => '⚡',
            Category::Refactor => '🔄',
            Category::Revert => '⏪',
            Category::Style => '🎨',
            Category::Test => '🧪',
        }
    }

    /// The fixed emoji glyph of this category.
    pub fn emoji(self) -> (r: char)
        ensures
            r == self.spec_emoji(),
    {
        match self {
            Category::Build => '📦',
            Category::Chore => '🔧',
            Category::Ci => '👷',
            Category::Docs => '📚',
            Category::Feat => '✨',
            Category::Fix => '🐛',
            Category::Perf => '⚡',
            Category::Refactor => '🔄',
            Category::Revert => '⏪',
            Category::Style => '🎨',
            Category::Test => '🧪',
        }
    }

    /// The emoji glyph of this category as a one-character string.
    pub fn emoji_text(self) -> (r: &'static str)
        ensures
            r@ == seq![self.spec_emoji()],
    {
        match self {
            Category::Build => {
                proof {
                    reveal_strlit("📦");
                    assert("📦"@ =~= seq!['📦']);
                }
                "📦"
            },
            Category::Chore => {
                proof {
                    reveal_strlit("🔧");
                    assert("🔧"@ =~= seq!['🔧']);
                }
                "🔧"
            },
            Category::Ci => {
                proof {
                    reveal_strlit("👷");
                    assert("👷"@ =~= seq!['👷']);
                }
                "👷"
            },
            Category::Docs => {
                proof {
                    reveal_strlit("📚");
                    assert("📚"@ =~= seq!['📚']);
                }
                "📚"
            },
            Category::Feat => {
                proof {
                    reveal_strlit("✨");
                    assert("✨"@ =~= seq!['✨']);
                }
                "✨"
            },
            Category::Fix => {
                proof {
                    reveal_strlit("🐛");
                    assert("🐛"@ =~= seq!['🐛']);
                }
                "🐛"
            },
            Category::Perf => {
                proof {
                    reveal_strlit("⚡");
                    assert("⚡"@ =~= seq!['⚡']);
                }
                "⚡"
            },
            Category::Refactor => {
                proof {
                    reveal_strlit("🔄");
                    assert("🔄"@ =~= seq!['🔄']);
                }
                "🔄"
            },
            Category::Revert => {
                proof {
                    reveal_strlit("⏪");
                    assert("⏪"@ =~= seq!['⏪']);
                }
                "⏪"
            },
            Category::Style => {
                proof {
                    reveal_strlit("🎨");
                    assert("🎨"@ =~= seq!['🎨']);
                }
                "🎨"
            },
            Category::Test => {
                proof {
                    reveal_strlit("🧪");
                    assert("🧪"@ =~= seq!['🧪']);
                }
                "🧪"
            },
        }
    }
}

/// `p` is a prefix of `s`.
pub open spec fn starts_with(s: Seq<char>, p: Seq<char>) -> bool {
    p.len() <= s.len() && forall|k: int| 0 <= k < p.len() ==> s[k] == p[k]
}

/// The first category whose label prefixes `s`, in the fixed order
/// `build, chore, ci, docs, feat, fix, perf, refactor, revert, style, test`.
pub open spec fn spec_classify(s: Seq<char>) -> Option<Category> {
    if starts_with(s, Category::Build.label()) {
        Some(Category::Build)
    } else if starts_with(s, Category::Chore.label()) {
        Some(Category::Chore)
    } else if starts_with(s, Category::Ci.label()) {
        Some(Category::Ci)
    } else if starts_with(s, Category::Docs.label()) {
        Some(Category::Docs)
    } else if starts_with(s, Category::Feat.label()) {
        Some(Category::Feat)
    } else if starts_with(s, Category::Fix.label()) {
        Some(Category::Fix)
    } else if starts_with(s, Category::Perf.label()) {
        Some(Category::Perf)
    } else if starts_with(s, Category::Refactor.label()) {
        Some(Category::Refactor)
    } else if starts_with(s, Category::Revert.label()) {
        Some(Category::Revert)
    } else if starts_with(s, Category::Style.label()) {
        Some(Category::Style)
    } else if starts_with(s, Category::Test.label()) {
        Some(Category::Test)
    } else {
        None
    }
}

/// Whether `p` is a prefix of `s`, character by character.
fn is_prefix(s: &str, p: &str) -> (r: bool)
    ensures
        r == starts_with(s@, p@),
{
    let n = p.unicode_len();
    if n > s.unicode_len() {
        return false;
    }
    let mut k: usize = 0;
    while k < n
        invariant
            n == p@.len(),
            n <= s@.len(),
            k <= n,
            forall|j: int| 0 <= j < k ==> s@[j] == p@[j],
        decreases n - k,
    {
        if s.get_char(k) != p.get_char(k) {
            return false;
        }
        k += 1;
    }
    true
}

/// Classify `s` by the first category label that prefixes it.
pub(crate) fn classify(s: &str) -> (r: Option<Category>)
    ensures
        r == spec_classify(s@),
{
    if is_prefix(s, "build") {
        Some(Category::Build)
    } else if is_prefix(s, "chore") {
        Some(Category::Chore)
    } else if is_prefix(s, "ci") {
        Some(Category::Ci)
    } else if is_prefix(s, "docs") {
        Some(Category::Docs)
    } else if is_prefix(s, "feat") {
        Some(Category::Feat)
    } else if is_prefix(s, "fix") {
        Some(Category::Fix)
    } else if is_prefix(s, "perf") {
        Some(Category::Perf)
    } else if is_prefix(s, "refactor") {
        Some(Category::Refactor)
    } else if is_prefix(s, "revert") {
        Some(Category::Revert)
    } else if is_prefix(s, "style") {
        Some(Category::Style)
    } else if is_prefix(s, "test") {
        Some(Category::Test)
    } else {
        None
    }
}

} // verus!
