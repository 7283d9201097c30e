//! The Unicode `Emoji` character class, as the `regex` crate implements it.

use vstd::prelude::*;

verus! {

pub uninterp spec fn is_emoji(c: char) -> bool;

/// Relies on `regex::Regex::is_match` with the pattern `^\p{Emoji}$`: on a
/// one-character string it reports exactly whether that character has
/// Unicode's `Emoji` property, a function of the character alone. The
/// pattern is a fixed, valid expression, so `Regex::new` cannot fail.
#[verifier::external_body]
pub(crate) fn is_emoji_char(c: char) -> (r: bool)
    ensures
        r == is_emoji(c),
{
    regex::Regex::new("^\\p{Emoji}$").unwrap().is_match(c.to_string().as_str())
}

} // verus!
