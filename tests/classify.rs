use stash_rs::line_diff::{classify_line, classify_lines};
use stash_rs::{LineDiff, RawLine, StashError};

#[test]
fn each_marker_selects_its_variant() {
    let text = "some text\n";
    assert_eq!(LineDiff::new('+', text.to_string()), LineDiff::Addition(text.to_string()));
    assert_eq!(LineDiff::new('-', text.to_string()), LineDiff::Deletion(text.to_string()));
    assert_eq!(LineDiff::new('=', text.to_string()), LineDiff::ContextEndOfAFile(text.to_string()));
    assert_eq!(LineDiff::new('>', text.to_string()), LineDiff::AddEndOfAFile(text.to_string()));
    assert_eq!(LineDiff::new('<', text.to_string()), LineDiff::RemoveEndOfAFile(text.to_string()));
    assert_eq!(LineDiff::new('F', text.to_string()), LineDiff::FileHeader(text.to_string()));
    assert_eq!(LineDiff::new('H', text.to_string()), LineDiff::HunkHeader(text.to_string()));
    assert_eq!(LineDiff::new('B', text.to_string()), LineDiff::LineBinary(text.to_string()));
}

#[test]
fn other_markers_fall_back_to_context() {
    for marker in [' ', 'x', 'f', 'h', '\n', '@'] {
        assert_eq!(
            LineDiff::new(marker, "ctx".to_string()),
            LineDiff::SameAsPrevious("ctx".to_string())
        );
    }
}

#[test]
fn content_is_kept_unchanged() {
    let raw = "  leading and trailing  \n\n";
    assert_eq!(LineDiff::new('+', raw.to_string()), LineDiff::Addition(raw.to_string()));
    assert_eq!(LineDiff::new('H', String::new()), LineDiff::HunkHeader(String::new()));
}

#[test]
fn classify_line_decodes_utf8() {
    let line = classify_line('-', "héllo\n".as_bytes()).unwrap();
    assert_eq!(line, LineDiff::Deletion("héllo\n".to_string()));
}

#[test]
fn classify_line_rejects_invalid_utf8() {
    let r = classify_line('+', &[0x66, 0xff, 0xfe]);
    assert!(matches!(r, Err(StashError::DecodingFailed)));
}

#[test]
fn classify_lines_keeps_order() {
    let raw = vec![
        RawLine { origin: 'F', content: b"diff --git a/x b/x\n".to_vec() },
        RawLine { origin: 'H', content: b"@@ -1 +1 @@\n".to_vec() },
        RawLine { origin: '-', content: b"old\n".to_vec() },
        RawLine { origin: '+', content: b"new\n".to_vec() },
        RawLine { origin: ' ', content: b"same\n".to_vec() },
    ];
    let lines = classify_lines(&raw).unwrap();
    assert_eq!(
        lines,
        vec![
            LineDiff::FileHeader("diff --git a/x b/x\n".to_string()),
            LineDiff::HunkHeader("@@ -1 +1 @@\n".to_string()),
            LineDiff::Deletion("old\n".to_string()),
            LineDiff::Addition("new\n".to_string()),
            LineDiff::SameAsPrevious("same\n".to_string()),
        ]
    );
}

#[test]
fn classify_lines_of_nothing_is_empty() {
    let raw: Vec<RawLine> = Vec::new();
    assert_eq!(classify_lines(&raw).unwrap(), Vec::new());
}

#[test]
fn classify_lines_fails_on_any_bad_line() {
    let raw = vec![
        RawLine { origin: '+', content: b"fine\n".to_vec() },
        RawLine { origin: '+', content: vec![0xc3] },
    ];
    assert!(matches!(classify_lines(&raw), Err(StashError::DecodingFailed)));
}
