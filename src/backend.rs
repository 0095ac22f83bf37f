//! The git operations this library relies on, each behind one trusted
//! item over the `git2` crate.

use vstd::prelude::*;

use crate::line_diff::RawLine;
use crate::repo::StashLogEntry;

verus! {

#[verifier::external_type_specification]
#[verifier::external_body]
pub struct ExGitError(git2::Error);

#[verifier::external_type_specification]
#[verifier::external_body]
pub struct ExRepository(git2::Repository);

#[verifier::external_type_specification]
#[verifier::external_body]
pub struct ExOid(git2::Oid);

#[verifier::external_type_specification]
#[verifier::external_body]
pub struct ExTree<'repo>(git2::Tree<'repo>);

#[verifier::external_type_specification]
#[verifier::external_body]
pub struct ExDiff<'repo>(git2::Diff<'repo>);

/// Relies on `git2::Repository::init`: opens the repository at `path`,
/// creating it first where there is none.
#[verifier::external_body]
pub(crate) fn open_repository(path: &str) -> (r: Result<git2::Repository, git2::Error>) {
    git2::Repository::init(path)
}

/// Relies on `git2::Repository::find_reference`: whether `refs/stash`
/// exists; a missing reference is `Ok(false)`, any other failure an error.
#[verifier::external_body]
pub(crate) fn has_stash_ref(repo: &git2::Repository) -> (r: Result<bool, git2::Error>) {
    match repo.find_reference("refs/stash") {
        Ok(_) => Ok(true),
        Err(e) if e.code() == git2::ErrorCode::NotFound => Ok(false),
        Err(e) => Err(e),
    }
}

/// Relies on `git2::Repository::reflog` on `refs/stash`, read through
/// `ReflogEntry::message_bytes` and `ReflogEntry::id_new`: the entries of
/// the stash stack, newest first, in the reflog's own order.
#[verifier::external_body]
pub(crate) fn stash_reflog(repo: &git2::Repository) -> (r: Result<Vec<StashLogEntry>, git2::Error>) {
    let log = repo.reflog("refs/stash")?;
    Ok(log.iter().map(|e| StashLogEntry {
        message: e.message_bytes().map(|m| m.to_vec()),
        commit: e.id_new(),
    }).collect())
}

/// Relies on `git2::Repository::find_commit` and `git2::Commit::tree_id`:
/// the tree that the commit `id` records.
#[verifier::external_body]
pub(crate) fn commit_tree_id(repo: &git2::Repository, id: git2::Oid) -> (r: Result<git2::Oid, git2::Error>) {
    repo.find_commit(id).map(|commit| commit.tree_id())
}

/// Relies on `git2::Repository::find_tree`: looks up the tree `id`.
#[verifier::external_body]
pub(crate) fn find_tree<'repo>(repo: &'repo git2::Repository, id: git2::Oid) -> (r: Result<git2::Tree<'repo>, git2::Error>) {
    repo.find_tree(id)
}

/// Relies on `git2::Repository::diff_tree_to_workdir_with_index` with the
/// `reverse` option: the diff from the working tree and index to `tree`,
/// so that what `tree` holds reads as changes to apply.
#[verifier::external_body]
pub(crate) fn reversed_workdir_diff<'repo>(repo: &'repo git2::Repository, tree: &git2::Tree<'_>) -> (r: Result<git2::Diff<'repo>, git2::Error>) {
    repo.diff_tree_to_workdir_with_index(Some(tree), Some(git2::DiffOptions::new().reverse(true)))
}

/// Relies on `git2::Diff::print` in patch format: each rendered line with
/// its origin marker and raw bytes, in the order the diff engine emits them.
#[verifier::external_body]
pub(crate) fn patch_lines(diff: &git2::Diff<'_>) -> (r: Result<Vec<RawLine>, git2::Error>) {
    let mut lines = Vec::new();
    diff.print(git2::DiffFormat::Patch, |_delta, _hunk, line| {
        lines.push(RawLine { origin: line.origin(), content: line.content().to_vec() });
        true
    }).map(|_| lines)
}

/// Relies on `git2::Repository::signature`, `Signature::name` and
/// `Signature::email`: the author identity configured for the repository,
/// where both parts are set and valid UTF-8. `Signature::now` takes the
/// name and email as `&str`, so an identity that is not UTF-8 cannot be
/// handed on and counts as not configured.
#[verifier::external_body]
pub(crate) fn configured_identity(repo: &git2::Repository) -> (r: Option<(String, String)>) {
    let signature = repo.signature().ok()?;
    Some((signature.name()?.to_string(), signature.email()?.to_string()))
}

/// Relies on `git2::Signature::now` and `git2::Repository::stash_save`:
/// pushes the working tree and index changes as a new stash labelled
/// `message` and authored by `author` (name, email) at the current time;
/// fails where there is nothing to stash.
#[verifier::external_body]
pub(crate) fn save_stash(repo: &mut git2::Repository, author: &(String, String), message: &str) -> (r: Result<git2::Oid, git2::Error>) {
    let signature = git2::Signature::now(&author.0, &author.1)?;
    repo.stash_save(&signature, message, None)
}

/// Relies on `git2::Repository::stash_pop`: applies the stash at `index`
/// and drops it from the stack.
#[verifier::external_body]
pub(crate) fn stash_pop(repo: &mut git2::Repository, index: usize) -> (r: Result<(), git2::Error>) {
    repo.stash_pop(index, None)
}

} // verus!
