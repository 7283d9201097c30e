//! Validated and annotated commit messages.
//!
//! A raw message becomes a [`CommitMessage`] only through [`CommitMessage::try_new`],
//! which checks the conventional-commit grammar and classifies the leading
//! token. Annotation splices the category's glyph in right after the
//! delimiting colon; its detection policy is positional: a message counts as
//! already annotated exactly when the character right after the `": "`
//! delimiter belongs to Unicode's `Emoji` class.

use vstd::prelude::*;

use crate::category::classify;
use crate::category::spec_classify;
use crate::category::Category;
use crate::emoji::is_emoji;
use crate::emoji::is_emoji_char;
use crate::grammar::delim_pos;
use crate::grammar::is_conventional;
use crate::grammar::lemma_delim_props;
use crate::grammar::validate;

verus! {

/// Why a raw message was refused by validation.
#[derive(Clone, Copy, Debug, PartialEq, Eq, Structural)]
pub enum ValidationError {
    /// The message does not have the conventional-commit shape.
    NotConventional,
    /// The shape is right, but the leading token names no known category.
    UnknownType,
}

/// Why an annotation was refused.
#[derive(Clone, Copy, Debug, PartialEq, Eq, Structural)]
pub enum AnnotationError {
    /// The message's subject already begins with an emoji.
    AlreadyAnnotated,
}

/// The subject of the conventional message `s` already begins with an emoji:
/// the character right after the `": "` delimiter is in the `Emoji` class.
pub open spec fn already_annotated(s: Seq<char>) -> bool
    recommends
        is_conventional(s),
{
    is_emoji(s[delim_pos(s)->Some_0 + 2])
}

/// `s` with a space and the glyph `e` spliced in right after the delimiting
/// colon.
pub open spec fn spliced(s: Seq<char>, e: char) -> Seq<char>
    recommends
        is_conventional(s),
{
    let d = delim_pos(s)->Some_0;
    s.subrange(0, d + 1) + seq![' ', e] + s.subrange(d + 1, s.len() as int)
}

/// The idempotent annotation of the conventional message `s` with category
/// `c`: the message itself where its subject already begins with an emoji,
/// else the message with the glyph of `c` spliced in.
pub open spec fn annotated(s: Seq<char>, c: Category) -> Seq<char>
    recommends
        is_conventional(s),
{
    if already_annotated(s) {
        s
    } else {
        spliced(s, c.spec_emoji())
    }
}

/// `None` where the subject of `s` already begins with an emoji; otherwise
/// `s` with the glyph of `cat` spliced in after the delimiting colon.
fn splice_emoji(s: &str, cat: Category) -> (r: Option<String>)
    requires
        is_conventional(s@),
    ensures
        r is None <==> already_annotated(s@),
        r matches Some(t) ==> t@ == spliced(s@, cat.spec_emoji()),
{
    proof {
        lemma_delim_props(s@);
    }
    let ghost d = delim_pos(s@)->Some_0;
    let n = s.unicode_len();

    // Find the first colon; validation put one before the subject.
    let mut i: usize = 0;
    while !(s.get_char(i) == ':')
        invariant
            n == s@.len(),
            i <= d < n,
            s@[d as int] == ':',
            forall|k: int| 0 <= k < d ==> s@[k] != ':',
        decreases d - i,
    {
        i += 1;
    }
    assert(i as int == d);

    if is_emoji_char(s.get_char(i + 2)) {
        return None;
    }

    let head = s.substring_char(0, i + 1);
    let tail = s.substring_char(i + 1, n);
    let mut out = head.to_owned();
    out.append(" ");
    out.append(cat.emoji_text());
    out.append(tail);
    proof {
        reveal_strlit(" ");
        assert(" "@ =~= seq![' ']);
        assert(out@ =~= spliced(s@, cat.spec_emoji()));
    }
    Some(out)
}

/// A commit message that passed validation, with the category its leading
/// token names.
#[derive(Debug, PartialEq)]
pub struct CommitMessage {
    message: String,
    category: Category,
}

impl View for CommitMessage {
    type V = Seq<char>;

    closed spec fn view(&self) -> Seq<char> {
        self.message@
    }
}

impl CommitMessage {
    #[verifier::type_invariant]
    spec fn wf(self) -> bool {
        is_conventional(self.message@) && spec_classify(self.message@) == Some(self.category)
    }

    /// The category that validation assigned to this message.
    pub closed spec fn spec_category(self) -> Category {
        self.category
    }

    /// Validate `message` against the conventional-commit grammar and
    /// classify its leading token. Exactly the messages of the grammar whose
    /// head a known category label prefixes are accepted; a message of the
    /// wrong shape is refused as `NotConventional`, one of the right shape
    /// with an unknown token as `UnknownType`.
    pub fn try_new(message: String) -> (r: Result<CommitMessage, ValidationError>)
        ensures
            match r {
                Ok(m) => m@ == message@ && is_conventional(message@) && Some(m.spec_category())
                    == spec_classify(message@),
                Err(ValidationError::NotConventional) => !is_conventional(message@),
                Err(ValidationError::UnknownType) => is_conventional(message@) && spec_classify(
                    message@,
                ) is None,
            },
    {
        if !validate(message.as_str()) {
            return Err(ValidationError::NotConventional);
        }
        match classify(message.as_str()) {
            Some(category) => Ok(CommitMessage { message, category }),
            None => Err(ValidationError::UnknownType),
        }
    }

    /// The validated text.
    pub fn as_str(&self) -> (r: &str)
        ensures
            r@ == self@,
    {
        self.message.as_str()
    }

    /// The category of this message.
    pub fn category(&self) -> (r: Category)
        ensures
            r == self.spec_category(),
    {
        self.category
    }

    /// Annotate the message, idempotently: a message whose subject already
    /// begins with an emoji is returned unchanged, any other gets a space and
    /// its category's glyph spliced in right after the delimiting colon.
    /// This variant never fails.
    pub fn insert_emoji(self) -> (r: Result<EmojiCommitMessage, AnnotationError>)
        ensures
            r matches Ok(e) && e@ == annotated(self@, self.spec_category()),
    {
        proof {
            use_type_invariant(&self);
        }
        let CommitMessage { message, category } = self;
        match splice_emoji(message.as_str(), category) {
            Some(t) => Ok(EmojiCommitMessage(t)),
            None => Ok(EmojiCommitMessage(message)),
        }
    }

    /// Annotate the message, strictly: a message whose subject already begins
    /// with an emoji is refused as `AlreadyAnnotated`, any other gets a space
    /// and its category's glyph spliced in right after the delimiting colon.
    pub fn insert_emoji_strict(self) -> (r: Result<EmojiCommitMessage, AnnotationError>)
        ensures
            already_annotated(self@) <==> r == Err::<EmojiCommitMessage, AnnotationError>(
                AnnotationError::AlreadyAnnotated,
            ),
            r matches Ok(e) ==> e@ == spliced(self@, self.spec_category().spec_emoji()),
    {
        proof {
            use_type_invariant(&self);
        }
        let CommitMessage { message, category } = self;
        match splice_emoji(message.as_str(), category) {
            Some(t) => Ok(EmojiCommitMessage(t)),
            None => Err(AnnotationError::AlreadyAnnotated),
        }
    }
}

/// A commit message whose subject carries an emoji: the outcome of
/// annotation.
#[derive(Debug, PartialEq)]
pub struct EmojiCommitMessage(String);

impl View for EmojiCommitMessage {
    type V = Seq<char>;

    closed spec fn view(&self) -> Seq<char> {
        self.0@
    }
}

impl EmojiCommitMessage {
    /// The annotated text.
    pub fn as_str(&self) -> (r: &str)
        ensures
            r@ == self@,
    {
        self.0.as_str()
    }

    /// The annotated text, owned.
    pub fn into_string(self) -> (r: String)
        ensures
            r@ == self@,
    {
        self.0
    }
}

} // verus!
