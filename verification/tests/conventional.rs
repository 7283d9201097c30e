use commit_emoji::CommitMessage;
use commit_emoji::ValidationError;

#[test]
fn test_valid_conventional_commit() {
    // Arrange
    let commit_msgs = [
        "build(foo): bar baz",
        "build: bar baz",
        "chore(foo): bar baz",
        "chore: bar baz",
        "ci(foo): bar baz",
        "ci: bar baz",
        "docs(foo): bar baz",
        "docs: bar baz",
        "feat(foo): bar baz",
        "feat: bar baz",
        "fix(foo): bar baz",
        "fix: bar baz",
        "perf(foo): bar baz",
        "perf: bar baz",
        "refactor(foo): bar baz",
        "refactor: bar baz",
        "revert(foo): bar baz",
        "revert: bar baz",
        "style(foo): bar baz",
        "style: bar baz",
        "test(foo): bar baz",
        "test: bar baz",
    ];

    for commit_msg in commit_msgs {
        // Act
        let conventional_commit_msg = CommitMessage::try_new(String::from(commit_msg));

        // Assert
        assert_eq!(
            conventional_commit_msg.err(),
            None,
            "Failed to parse conventional commit from \"{commit_msg}\""
        );
    }
}

#[test]
fn test_invalid_conventional_commit() {
    // Arrange
    let commit_msgs = [
        "foo bar baz",
        "asdf(foo): bar baz",
        "asdf: bar baz",
        "feat",
        "feat:",
        "feat: ",
        "feat(foo):",
        "feat(food): ",
    ];

    for commit_msg in commit_msgs {
        // Act
        let conventional_commit_msg = CommitMessage::try_new(String::from(commit_msg));

        // Assert
        assert_eq!(
            conventional_commit_msg.ok(),
            None,
            "Should have failed to parse a conventional commit from \"{commit_msg}\""
        );
    }
}

#[test]
fn invalid_inputs_fail_validation() {
    for commit_msg in ["random text", "feat:"] {
        let result = CommitMessage::try_new(String::from(commit_msg));
        assert_eq!(result.err(), Some(ValidationError::NotConventional));
    }
    let result = CommitMessage::try_new(String::from("unknowntype: body"));
    assert_eq!(result.err(), Some(ValidationError::UnknownType));
}

#[test]
fn classification_is_observable() {
    let msg = CommitMessage::try_new(String::from("fix(parser): handle edge case")).unwrap();
    assert_eq!(msg.category(), commit_emoji::Category::Fix);
    assert_eq!(msg.as_str(), "fix(parser): handle edge case");
}
