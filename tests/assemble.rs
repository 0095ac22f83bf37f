use git2::Oid;
use stash_rs::repo::{assemble_stash_diffs, stash_author, stash_records, Stash, StashLogEntry};
use stash_rs::repo::{FALLBACK_AUTHOR_EMAIL, FALLBACK_AUTHOR_NAME};
use stash_rs::{DiffStep, LineDiff, RawLine, StashError};

fn raw(origin: char, text: &str) -> RawLine {
    RawLine { origin, content: text.as_bytes().to_vec() }
}

#[test]
fn no_entries_assemble_to_an_empty_list() {
    let r = assemble_stash_diffs(Vec::new()).unwrap();
    assert!(r.is_empty());
}

#[test]
fn each_stash_gets_its_own_lines() {
    let entries = vec![
        (Stash::new(0, "On master: two".to_string(), Oid::zero()), vec![raw('+', "second\n")]),
        (Stash::new(1, "On master: one".to_string(), Oid::zero()), vec![raw('F', "hdr\n"), raw('-', "first\n")]),
        (Stash::new(2, "On master: empty".to_string(), Oid::zero()), Vec::new()),
    ];
    let v = assemble_stash_diffs(entries).unwrap();
    assert_eq!(v.len(), 3);
    assert_eq!(v[0].index(), 0);
    assert_eq!(v[0].title(), "On master: two");
    assert_eq!(v[0].lines(), &vec![LineDiff::Addition("second\n".to_string())]);
    assert_eq!(v[1].index(), 1);
    assert_eq!(v[1].title(), "On master: one");
    assert_eq!(
        v[1].lines(),
        &vec![LineDiff::FileHeader("hdr\n".to_string()), LineDiff::Deletion("first\n".to_string())]
    );
    assert_eq!(v[2].title(), "On master: empty");
    assert!(v[2].lines().is_empty());
}

#[test]
fn one_bad_line_fails_the_whole_list() {
    let entries = vec![
        (Stash::new(0, "a".to_string(), Oid::zero()), vec![raw('+', "fine\n")]),
        (Stash::new(1, "b".to_string(), Oid::zero()), vec![RawLine { origin: '+', content: vec![0xff] }]),
    ];
    assert!(matches!(assemble_stash_diffs(entries), Err(StashError::DecodingFailed)));
}

#[test]
fn configured_identity_is_kept() {
    let r = stash_author(Some(("Ada".to_string(), "ada@example.org".to_string())));
    assert_eq!(r, ("Ada".to_string(), "ada@example.org".to_string()));
}

#[test]
fn missing_identity_falls_back() {
    let r = stash_author(None);
    assert_eq!(r, ("stash-rs application".to_string(), "stashapp".to_string()));
    assert_eq!(r, (FALLBACK_AUTHOR_NAME.to_string(), FALLBACK_AUTHOR_EMAIL.to_string()));
}

#[test]
fn diff_steps_have_their_own_context() {
    let err = || git2::Error::from_str("boom");
    let cases = [
        (DiffStep::CommitLookup, "Failed to find stash commit"),
        (DiffStep::TreeLookup, "Failed to find stash tree"),
        (DiffStep::DiffGeneration, "Failed to get diff"),
        (DiffStep::DiffRendering, "could not get print from diffs"),
    ];
    for (step, text) in cases {
        assert_eq!(StashError::DiffComputationFailed(step, err()).context(), text);
    }
    assert_eq!(StashError::RepoOpenFailed(err()).context(), "could not create a repo object");
    assert_eq!(StashError::StashEnumerationFailed(err()).context(), "could not iterate on the stashes");
}

fn log_entry(message: Option<&[u8]>) -> StashLogEntry {
    StashLogEntry { message: message.map(|m| m.to_vec()), commit: Oid::zero() }
}

#[test]
fn empty_log_gives_no_records() {
    let log: Vec<StashLogEntry> = Vec::new();
    assert!(stash_records(&log).unwrap().is_empty());
}

#[test]
fn log_entries_become_records_in_order() {
    let log = vec![
        log_entry(Some(b"On master: this is a test 2")),
        log_entry(None),
        log_entry(Some("On master: caf\u{e9}".as_bytes())),
    ];
    let v = stash_records(&log).unwrap();
    assert_eq!(v.len(), 3);
    assert_eq!(v[0].index(), 0);
    assert_eq!(v[0].title(), "On master: this is a test 2");
    assert_eq!(v[1].index(), 1);
    assert_eq!(v[1].title(), "");
    assert_eq!(v[2].index(), 2);
    assert_eq!(v[2].title(), "On master: caf\u{e9}");
}

#[test]
fn undecodable_log_message_fails() {
    let log = vec![log_entry(Some(b"fine")), log_entry(Some(&[0x4f, 0x6e, 0xc0]))];
    assert!(matches!(stash_records(&log), Err(StashError::DecodingFailed)));
}
