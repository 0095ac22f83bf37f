use vstd::prelude::*;

use crate::backend;
use crate::error::{DiffStep, StashError};
use crate::line_diff::{classifies_all, decode_utf8, utf8_text, LineDiff, RawLine};
use crate::line_diff::{all_decodable, classify_lines, is_classification};

verus! {

/// One entry of the stash stack, as seen by one enumeration.
///
/// `index` is the entry's position in the stack at that moment: the stack
/// renumbers on every push and pop, so it is not a durable name.
#[derive(Debug)]
pub struct Stash {
    index: usize,
    title: String,
    commit_id: git2::Oid,
}

impl Stash {
    /// The entry's position in the stack when it was enumerated.
    pub closed spec fn index_view(&self) -> usize {
        self.index
    }

    /// The entry's title, as the backend labels it.
    pub closed spec fn title_view(&self) -> Seq<char> {
        self.title@
    }

    /// The commit the entry points to.
    pub closed spec fn commit_view(&self) -> git2::Oid {
        self.commit_id
    }

    pub fn new(index: usize, title: String, commit_id: git2::Oid) -> (r: Stash)
        ensures
            r.index_view() == index,
            r.title_view() == title@,
            r.commit_view() == commit_id,
    {
        Stash { index, title, commit_id }
    }

    pub fn index(&self) -> (r: usize)
        ensures
            r == self.index_view(),
    {
        self.index
    }

    pub fn title(&self) -> (r: &str)
        ensures
            r@ == self.title_view(),
    {
        self.title.as_str()
    }
}

/// One entry of the stash reflog, newest first: the message bytes the
/// backend labelled the stash with, and the stash commit.
pub struct StashLogEntry {
    pub message: Option<Vec<u8>>,
    pub commit: git2::Oid,
}

/// The title a log message gives: its UTF-8 text, the empty title where
/// there is no message, `None` where the bytes are not UTF-8.
pub open spec fn log_title(message: Option<Vec<u8>>) -> Option<Seq<char>> {
    match message {
        Some(bytes) => utf8_text(bytes@),
        None => Some(Seq::empty()),
    }
}

/// `stash` is the record that the log entry `entry` at position `i` gives.
pub open spec fn entry_gives(entry: StashLogEntry, i: int, stash: Stash) -> bool {
    &&& stash.index_view() == i
    &&& log_title(entry.message) == Some(stash.title_view())
    &&& stash.commit_view() == entry.commit
}

/// `records` holds one record per entry of `log`, in the log's order.
pub open spec fn records_from(log: Seq<StashLogEntry>, records: Seq<Stash>) -> bool {
    &&& records.len() == log.len()
    &&& forall|i: int| 0 <= i < log.len() ==> entry_gives(log[i], i, #[trigger] records[i])
}

/// `list` holds one stash per entry of `log`, in the log's order, each
/// made from its entry as `entry_gives` says.
pub open spec fn lists_log(log: Seq<StashLogEntry>, list: Seq<StashDiff>) -> bool {
    &&& list.len() == log.len()
    &&& forall|i: int| 0 <= i < log.len() ==> entry_gives(log[i], i, (#[trigger] list[i]).record())
}

/// The records of the stash log, one per entry and in the log's order:
/// entry `i` becomes the record at position `i`, titled by its decoded
/// message and pointing to its commit. Fails with `DecodingFailed` where
/// any message is not UTF-8.
pub fn stash_records(log: &Vec<StashLogEntry>) -> (r: Result<Vec<Stash>, StashError>)
    ensures
        r is Ok <==> forall|i: int| 0 <= i < log.len() ==> (#[trigger] log_title(log[i].message)) is Some,
        r matches Ok(v) ==> records_from(log@, v@),
        r matches Err(e) ==> e is DecodingFailed,
{
    let mut stashes: Vec<Stash> = Vec::new();
    let mut i: usize = 0;
    while i < log.len()
        invariant
            i <= log.len(),
            records_from(log@.subrange(0, i as int), stashes@),
            forall|j: int| 0 <= j < i ==> (#[trigger] log_title(log@[j].message)) is Some,
        decreases log.len() - i,
    {
        let title = match &log[i].message {
            Some(bytes) => match decode_utf8(bytes.as_slice()) {
                Some(t) => t,
                None => {
                    assert(log_title(log@[i as int].message) is None);
                    return Err(StashError::DecodingFailed);
                },
            },
            None => String::new(),
        };
        stashes.push(Stash::new(i, title, log[i].commit));
        proof {
            let prev = log@.subrange(0, i as int);
            let next = log@.subrange(0, i + 1);
            assert forall|j: int| 0 <= j < next.len() implies entry_gives(next[j], j, #[trigger] stashes@[j]) by {
                if j < i {
                    assert(next[j] == prev[j]);
                }
            }
        }
        i = i + 1;
    }
    assert(log@.subrange(0, i as int) =~= log@);
    Ok(stashes)
}

/// A stash together with its classified diff against the working tree.
#[derive(Debug)]
pub struct StashDiff {
    pub diffs: Vec<LineDiff>,
    stash: Stash,
}

impl StashDiff {
    /// The position of the stash in the stack when it was enumerated.
    pub closed spec fn index_view(&self) -> usize {
        self.stash.index
    }

    /// The stash's title, as the backend labels it.
    pub closed spec fn title_view(&self) -> Seq<char> {
        self.stash.title@
    }

    /// The stash this diff belongs to.
    pub closed spec fn record(&self) -> Stash {
        self.stash
    }

    /// The stash's classified diff lines.
    pub closed spec fn lines_view(&self) -> Seq<LineDiff> {
        self.diffs@
    }

    fn new(diffs: Vec<LineDiff>, stash: Stash) -> (r: StashDiff)
        ensures
            r.diffs == diffs,
            r.lines_view() == diffs@,
            r.stash == stash,
    {
        StashDiff { diffs, stash }
    }

    pub fn title(&self) -> (r: &str)
        ensures
            r@ == self.title_view(),
            r@ == self.record().title_view(),
    {
        self.stash.title.as_str()
    }

    pub fn index(&self) -> (r: usize)
        ensures
            r == self.index_view(),
            r == self.record().index_view(),
    {
        self.stash.index
    }

    /// The classified diff lines, in the order the diff engine emitted them.
    pub fn lines(&self) -> (r: &Vec<LineDiff>)
        ensures
            r@ == self.lines_view(),
    {
        &self.diffs
    }
}

/// Pairs each stash with the classification of its own raw diff lines,
/// keeping the order given. There is no partial result: if any line of any
/// stash is not UTF-8, the whole call fails with `DecodingFailed`. No
/// entries give an empty list.
pub fn assemble_stash_diffs(entries: Vec<(Stash, Vec<RawLine>)>) -> (r: Result<Vec<StashDiff>, StashError>)
    ensures
        entries.len() == 0 ==> (r matches Ok(v) && v.len() == 0),
        r is Ok <==> forall|i: int| 0 <= i < entries.len() ==> all_decodable(#[trigger] entries[i].1@),
        r matches Ok(v) ==> {
            &&& v.len() == entries.len()
            &&& forall|i: int|
                0 <= i < v.len() ==> {
                    &&& (#[trigger] v[i]).record() == entries[i].0
                    &&& classifies_all(entries[i].1@, v[i].lines_view())
                }
        },
        r matches Err(e) ==> e is DecodingFailed,
{
    let ghost all = entries@;
    let mut rest = entries;
    let mut result: Vec<StashDiff> = Vec::new();
    while rest.len() > 0
        invariant
            all == entries@,
            result.len() + rest.len() == all.len(),
            rest@ == all.subrange(result.len() as int, all.len() as int),
            forall|i: int|
                0 <= i < result.len() ==> {
                    &&& (#[trigger] result[i]).record() == all[i].0
                    &&& classifies_all(all[i].1@, result[i].lines_view())
                    &&& all_decodable(all[i].1@)
                },
        decreases rest.len(),
    {
        let (stash, raw) = rest.remove(0);
        let lines = match classify_lines(&raw) {
            Ok(lines) => lines,
            Err(e) => {
                assert(!all_decodable(all[result.len() as int].1@));
                return Err(e);
            },
        };
        result.push(StashDiff::new(lines, stash));
    }
    assert forall|i: int| 0 <= i < all.len() implies all_decodable(#[trigger] all[i].1@) by {
        assert(result[i].record() == all[i].0);
    }
    Ok(result)
}

/// The identity a new stash is authored by: the configured one where the
/// repository has one, else `FALLBACK_AUTHOR_NAME` and
/// `FALLBACK_AUTHOR_EMAIL`. Each pair is (name, email).
pub fn stash_author(configured: Option<(String, String)>) -> (r: (String, String))
    ensures
        configured matches Some(c) ==> (r.0@ == c.0@ && r.1@ == c.1@),
        configured is None ==> (r.0@ == FALLBACK_AUTHOR_NAME@ && r.1@ == FALLBACK_AUTHOR_EMAIL@),
{
    match configured {
        Some(c) => c,
        None => (FALLBACK_AUTHOR_NAME.to_owned(), FALLBACK_AUTHOR_EMAIL.to_owned()),
    }
}

/// The author name used for a stash where the repository configures none.
pub const FALLBACK_AUTHOR_NAME: &'static str = "stash-rs application";

/// The author email used for a stash where the repository configures none.
pub const FALLBACK_AUTHOR_EMAIL: &'static str = "stashapp";

/// A handle on one repository on disk.
pub struct Repo {
    repo: git2::Repository,
}

impl Repo {
    /// Opens the repository at `path`, creating one where there is none.
    pub fn new(path: &str) -> (r: Result<Repo, StashError>)
        ensures
            r matches Err(e) ==> e is RepoOpenFailed,
    {
        match backend::open_repository(path) {
            Ok(repo) => Ok(Repo { repo }),
            Err(e) => Err(StashError::RepoOpenFailed(e)),
        }
    }

    /// Every stash of the stack, newest first, each with its diff against
    /// the working tree. There is no partial result: if any one stash's
    /// diff fails, the whole call fails.
    pub fn stashes(&mut self) -> (r: Result<Vec<StashDiff>, StashError>)
        ensures
            r matches Ok(v) ==> exists|log: Seq<StashLogEntry>| lists_log(log, v@),
            r matches Ok(v) ==> forall|i: int|
                0 <= i < v.len() ==> {
                    &&& (#[trigger] v[i]).index_view() == i
                    &&& is_classification(v[i].lines_view())
                },
            r matches Err(e) ==> {
                ||| e is StashEnumerationFailed
                ||| e is DiffComputationFailed
                ||| e is DecodingFailed
            },
    {
        let stashes = match self.stash_show() {
            Ok(stashes) => stashes,
            Err(e) => return Err(e),
        };
        let ghost all = stashes@;
        let ghost log = choose|log: Seq<StashLogEntry>| records_from(log, all);
        let mut rest = stashes;
        let mut entries: Vec<(Stash, Vec<RawLine>)> = Vec::new();
        while rest.len() > 0
            invariant
                records_from(log, all),
                entries.len() + rest.len() == all.len(),
                rest@ == all.subrange(entries.len() as int, all.len() as int),
                forall|i: int| 0 <= i < entries.len() ==> (#[trigger] entries[i]).0 == all[i],
            decreases rest.len(),
        {
            let s = rest.remove(0);
            let raw = match self.raw_diff(&s) {
                Ok(raw) => raw,
                Err(e) => return Err(e),
            };
            entries.push((s, raw));
        }
        let ghost pairs = entries@;
        let r = assemble_stash_diffs(entries);
        assert(r matches Ok(v) ==> lists_log(log, v@)) by {
            if let Ok(v) = r {
                assert forall|i: int| 0 <= i < log.len() implies
                    entry_gives(log[i], i, (#[trigger] v@[i]).record()) by {
                    assert(v[i].record() == pairs[i].0);
                    assert(pairs[i].0 == all[i]);
                }
            }
        }
        assert(r matches Ok(v) ==> forall|i: int|
            0 <= i < v.len() ==> {
                &&& (#[trigger] v[i]).index_view() == i
                &&& is_classification(v[i].lines_view())
            }) by {
            if let Ok(v) = r {
                assert forall|i: int| 0 <= i < v.len() implies (#[trigger] v[i]).index_view() == i by {
                    assert(v[i].record() == pairs[i].0);
                    assert(pairs[i].0 == all[i]);
                    assert(entry_gives(log[i], i, all[i]));
                }
                assert forall|i: int| 0 <= i < v.len() implies is_classification(
                    (#[trigger] v[i]).lines_view()) by {
                    assert(classifies_all(pairs[i].1@, v[i].lines_view()));
                }
            }
        }
        r
    }

    /// The records of the stash stack, newest first. libgit2's own walk
    /// over the stack is not used: git2's callback for it panics on a
    /// message that is not UTF-8. The stack is read here as the reflog of
    /// `refs/stash` instead, where the reference exists, and each message
    /// is decoded by `stash_records`.
    fn stash_show(&mut self) -> (r: Result<Vec<Stash>, StashError>)
        ensures
            r matches Ok(v) ==> exists|log: Seq<StashLogEntry>| records_from(log, v@),
            r matches Err(e) ==> e is StashEnumerationFailed || e is DecodingFailed,
    {
        let present = match backend::has_stash_ref(&self.repo) {
            Ok(present) => present,
            Err(e) => return Err(StashError::StashEnumerationFailed(e)),
        };
        let log = if present {
            match backend::stash_reflog(&self.repo) {
                Ok(log) => log,
                Err(e) => return Err(StashError::StashEnumerationFailed(e)),
            }
        } else {
            Vec::new()
        };
        let r = stash_records(&log);
        assert(r matches Ok(v) ==> records_from(log@, v@));
        r
    }

    /// The raw diff lines of one stash: its tree diffed against the working
    /// tree and index, reversed, so that what the stash holds reads as
    /// changes to apply. Each failing step is named in the error.
    fn raw_diff(&self, stash: &Stash) -> (r: Result<Vec<RawLine>, StashError>)
        ensures
            r matches Err(e) ==> e is DiffComputationFailed,
    {
        let tree_id = match backend::commit_tree_id(&self.repo, stash.commit_id) {
            Ok(id) => id,
            Err(e) => return Err(StashError::DiffComputationFailed(DiffStep::CommitLookup, e)),
        };
        let tree = match backend::find_tree(&self.repo, tree_id) {
            Ok(t) => t,
            Err(e) => return Err(StashError::DiffComputationFailed(DiffStep::TreeLookup, e)),
        };
        let diff = match backend::reversed_workdir_diff(&self.repo, &tree) {
            Ok(d) => d,
            Err(e) => return Err(StashError::DiffComputationFailed(DiffStep::DiffGeneration, e)),
        };
        match backend::patch_lines(&diff) {
            Ok(lines) => Ok(lines),
            Err(e) => Err(StashError::DiffComputationFailed(DiffStep::DiffRendering, e)),
        }
    }

    /// Pushes the working tree and index changes as a new stash labelled
    /// `msg`, authored by `stash_author` of the configured identity. Fails
    /// where there is nothing to stash.
    pub fn stash(&mut self, msg: &str) -> (r: Result<(), StashError>)
        ensures
            r matches Err(e) ==> e is StashCreateFailed,
    {
        let author = stash_author(backend::configured_identity(&self.repo));
        match backend::save_stash(&mut self.repo, &author, msg) {
            Ok(_) => Ok(()),
            Err(e) => Err(StashError::StashCreateFailed(e)),
        }
    }

    /// Applies the stash at the position `stash` was enumerated with and
    /// drops it from the stack. Positions change with every push and pop:
    /// after either, enumerate again before applying.
    pub fn stash_apply(&mut self, stash: &StashDiff) -> (r: Result<(), StashError>)
        ensures
            r matches Err(e) ==> e is StashApplyFailed,
    {
        match backend::stash_pop(&mut self.repo, stash.stash.index) {
            Ok(()) => Ok(()),
            Err(e) => Err(StashError::StashApplyFailed(e)),
        }
    }
}

} // verus!
