use commit_emoji::AnnotationError;
use commit_emoji::CommitMessage;

fn annotate(raw: &str) -> String {
    CommitMessage::try_new(String::from(raw))
        .unwrap()
        .insert_emoji()
        .unwrap()
        .into_string()
}

#[test]
fn round_trip_feat() {
    assert_eq!(annotate("feat: add login"), "feat: \u{2728} add login");
}

#[test]
fn scoped_fix() {
    assert_eq!(
        annotate("fix(parser): handle edge case"),
        "fix(parser): \u{1F41B} handle edge case"
    );
}

#[test]
fn breaking_chore() {
    assert_eq!(annotate("chore!: drop support"), "chore!: \u{1F527} drop support");
}

#[test]
fn every_category_gets_its_glyph() {
    let cases = [
        ("build: bar baz", "build: \u{1F4E6} bar baz"),
        ("chore: bar baz", "chore: \u{1F527} bar baz"),
        ("ci: bar baz", "ci: \u{1F477} bar baz"),
        ("docs: bar baz", "docs: \u{1F4DA} bar baz"),
        ("feat: bar baz", "feat: \u{2728} bar baz"),
        ("fix: bar baz", "fix: \u{1F41B} bar baz"),
        ("perf: bar baz", "perf: \u{26A1} bar baz"),
        ("refactor: bar baz", "refactor: \u{1F504} bar baz"),
        ("revert: bar baz", "revert: \u{23EA} bar baz"),
        ("style: bar baz", "style: \u{1F3A8} bar baz"),
        ("test: bar baz", "test: \u{1F9EA} bar baz"),
    ];
    for (raw, annotated) in cases {
        assert_eq!(annotate(raw), annotated, "wrong annotation for \"{raw}\"");
    }
}

#[test]
fn reannotation_is_idempotent() {
    let annotated = annotate("feat: add login");
    let again = CommitMessage::try_new(annotated.clone())
        .unwrap()
        .insert_emoji()
        .unwrap()
        .into_string();
    assert_eq!(again, annotated);
}

#[test]
fn strict_reannotation_fails() {
    let annotated = annotate("feat: add login");
    let result = CommitMessage::try_new(annotated).unwrap().insert_emoji_strict();
    assert_eq!(result.err(), Some(AnnotationError::AlreadyAnnotated));
}

#[test]
fn strict_annotation_of_plain_message_succeeds() {
    let result = CommitMessage::try_new(String::from("feat: add login"))
        .unwrap()
        .insert_emoji_strict();
    assert_eq!(result.unwrap().as_str(), "feat: \u{2728} add login");
}

#[test]
fn tail_after_subject_is_kept() {
    assert_eq!(
        annotate("feat: add login\n\nA longer body.\n"),
        "feat: \u{2728} add login\n\nA longer body.\n"
    );
}

#[test]
fn digits_count_as_emoji_after_the_delimiter() {
    // Unicode's Emoji class contains the keycap bases '0'..'9', so a subject
    // that opens with a digit counts as already annotated.
    let msg = CommitMessage::try_new(String::from("feat: 2 factor auth")).unwrap();
    assert_eq!(msg.insert_emoji().unwrap().as_str(), "feat: 2 factor auth");
}
