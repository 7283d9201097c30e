//! Validation and emoji annotation of conventional commit messages.
//!
//! A message of the shape `type(scope)!: subject` is validated against the
//! conventional-commit grammar, classified into one of eleven categories by
//! its leading token, and annotated by splicing the category's emoji glyph
//! in right after the delimiting colon.

pub mod category;
pub mod emoji;
pub mod grammar;
pub mod laws;
pub mod message;

pub use category::Category;
pub use message::AnnotationError;
pub use message::CommitMessage;
pub use message::EmojiCommitMessage;
pub use message::ValidationError;
