use vstd::prelude::*;

verus! {

/// The step of computing a stash's diff that failed.
#[derive(Debug, Clone, Copy, PartialEq, Eq, Structural)]
pub enum DiffStep {
    /// Looking up the stash's commit.
    CommitLookup,
    /// Looking up the commit's tree.
    TreeLookup,
    /// Diffing the tree against the working tree and index.
    DiffGeneration,
    /// Rendering the diff as lines.
    DiffRendering,
}

/// What went wrong in a repository operation.
///
/// Each backend failure keeps the backend's own error beside the step
/// that failed.
#[derive(Debug)]
pub enum StashError {
    /// The repository could not be opened or created.
    RepoOpenFailed(git2::Error),
    /// Walking the stash stack failed.
    StashEnumerationFailed(git2::Error),
    /// One step of a stash's diff failed.
    DiffComputationFailed(DiffStep, git2::Error),
    /// Text read from the repository (a diff line or a stash title) is not
    /// valid UTF-8.
    DecodingFailed,
    /// Nothing to stash, or the backend refused to save the stash.
    StashCreateFailed(git2::Error),
    /// The index does not name a stash, or applying it conflicted.
    StashApplyFailed(git2::Error),
}

impl StashError {
    /// A short sentence naming the step that failed.
    pub fn context(&self) -> (r: &'static str)
        ensures
            self is RepoOpenFailed ==> r == "could not create a repo object",
            self is StashEnumerationFailed ==> r == "could not iterate on the stashes",
            self matches StashError::DiffComputationFailed(DiffStep::CommitLookup, _)
                ==> r == "Failed to find stash commit",
            self matches StashError::DiffComputationFailed(DiffStep::TreeLookup, _)
                ==> r == "Failed to find stash tree",
            self matches StashError::DiffComputationFailed(DiffStep::DiffGeneration, _)
                ==> r == "Failed to get diff",
            self matches StashError::DiffComputationFailed(DiffStep::DiffRendering, _)
                ==> r == "could not get print from diffs",
            self is DecodingFailed ==> r == "text in the repository is not valid UTF-8",
            self is StashCreateFailed ==> r == "could not stash",
            self is StashApplyFailed ==> r == "could not stash pop the index to apply",
    {
        match self {
            StashError::RepoOpenFailed(_) => "could not create a repo object",
            StashError::StashEnumerationFailed(_) => "could not iterate on the stashes",
            StashError::DiffComputationFailed(DiffStep::CommitLookup, _) => "Failed to find stash commit",
            StashError::DiffComputationFailed(DiffStep::TreeLookup, _) => "Failed to find stash tree",
            StashError::DiffComputationFailed(DiffStep::DiffGeneration, _) => "Failed to get diff",
            StashError::DiffComputationFailed(DiffStep::DiffRendering, _) => "could not get print from diffs",
            StashError::DecodingFailed => "text in the repository is not valid UTF-8",
            StashError::StashCreateFailed(_) => "could not stash",
            StashError::StashApplyFailed(_) => "could not stash pop the index to apply",
        }
    }
}

} // verus!
