//! Information about a git repository: its HEAD and a summary of its status.
use vstd::prelude::*;

verus! {

/// What a repository's HEAD points to.
#[derive(Debug, PartialEq, Eq)]
pub enum Head {
    /// HEAD points to an existing branch.
    Branch {
        /// The name of the branch.
        name: String,
        /// How many commits the branch is ahead and behind its upstream:
        /// `Ok(None)` when it has no upstream, `Err` with a message when they could
        /// not be counted.
        upstream: Result<Option<AheadBehind>, String>,
    },
    /// HEAD is detached, at the commit of this id (in hexadecimal).
    Commit(String),
    /// HEAD points to a target that does not exist yet, usually `refs/heads/<branch>`.
    Unborn {
        /// The target of HEAD.
        target: String,
    },
}

/// How many commits a branch is ahead and behind its upstream.
#[derive(Debug, Default, Clone, Copy, PartialEq, Eq, Hash)]
pub struct AheadBehind {
    pub ahead: usize,
    pub behind: usize,
}

/// A summary of the changes in either a working tree or a staging area.
#[derive(Debug, Default, Clone, Copy, PartialEq, Eq, Hash)]
pub struct ChangeSummary {
    /// The number of added files.
    pub added: usize,
    /// The number of modified files.
    pub modified: usize,
    /// The number of deleted files.
    pub deleted: usize,
}

impl ChangeSummary {
    /// Whether any file was added, modified or deleted.
    pub fn any_changes(&self) -> (r: bool)
        ensures
            r == (self.added != 0 || self.modified != 0 || self.deleted != 0),
    {
        self.added != 0 || self.modified != 0 || self.deleted != 0
    }
}

/// A summary of a repository's status.
#[derive(Debug, Default, Clone, Copy, PartialEq, Eq, Hash)]
pub struct StatusSummary {
    /// The changes in the working tree.
    pub working_tree: ChangeSummary,
    /// The changes in the staging area.
    pub staging: ChangeSummary,
    /// The number of files with merge conflicts.
    pub conflicted: usize,
}

/// The status of one file, as far as the summary needs it.
#[derive(Debug, Default, Clone, Copy, PartialEq, Eq, Hash)]
pub struct FileStatus {
    /// The file is new in the staging area.
    pub index_new: bool,
    /// The file is deleted in the staging area.
    pub index_deleted: bool,
    /// The file is modified, renamed or changed in type in the staging area.
    pub index_modified: bool,
    /// The file is new in the working tree.
    pub worktree_new: bool,
    /// The file is deleted in the working tree.
    pub worktree_deleted: bool,
    /// The file is modified, renamed or changed in type in the working tree.
    pub worktree_modified: bool,
    /// The file has merge conflicts.
    pub conflicted: bool,
}

/// How many of the first `n` statuses satisfy `f`.
pub open spec fn count_where(statuses: Seq<FileStatus>, n: nat, f: spec_fn(FileStatus) -> bool) -> nat
    decreases n,
{
    if n == 0 {
        0
    } else {
        count_where(statuses, (n - 1) as nat, f) + if f(statuses[n - 1]) {
            1nat
        } else {
            0nat
        }
    }
}

/// A file counts as added where it is new; as deleted where it is deleted and not new;
/// as modified where it is modified and neither new nor deleted.
pub open spec fn summary_of(statuses: Seq<FileStatus>) -> StatusSummary {
    let n = statuses.len();
    StatusSummary {
        working_tree: ChangeSummary {
            added: count_where(statuses, n, |s: FileStatus| s.worktree_new) as usize,
            modified: count_where(
                statuses,
                n,
                |s: FileStatus| !s.worktree_new && !s.worktree_deleted && s.worktree_modified,
            ) as usize,
            deleted: count_where(
                statuses,
                n,
                |s: FileStatus| !s.worktree_new && s.worktree_deleted,
            ) as usize,
        },
        staging: ChangeSummary {
            added: count_where(statuses, n, |s: FileStatus| s.index_new) as usize,
            modified: count_where(
                statuses,
                n,
                |s: FileStatus| !s.index_new && !s.index_deleted && s.index_modified,
            ) as usize,
            deleted: count_where(statuses, n, |s: FileStatus| !s.index_new && s.index_deleted)
                as usize,
        },
        conflicted: count_where(statuses, n, |s: FileStatus| s.conflicted) as usize,
    }
}

proof fn lemma_count_bounded(statuses: Seq<FileStatus>, n: nat, f: spec_fn(FileStatus) -> bool)
    ensures
        count_where(statuses, n, f) <= n,
    decreases n,
{
    if n > 0 {
        lemma_count_bounded(statuses, (n - 1) as nat, f);
    }
}

impl StatusSummary {
    /// The summary of the statuses of a repository's files.
    pub fn from_file_statuses(statuses: &Vec<FileStatus>) -> (r: Self)
        ensures
            r == summary_of(statuses@),
    {
        let ghost s = statuses@;
        let mut working_tree = ChangeSummary { added: 0, modified: 0, deleted: 0 };
        let mut staging = ChangeSummary { added: 0, modified: 0, deleted: 0 };
        let mut conflicted: usize = 0;
        let mut i: usize = 0;
        while i < statuses.len()
            invariant
                s == statuses@,
                0 <= i <= statuses.len(),
                working_tree.added == count_where(s, i as nat, |s: FileStatus| s.worktree_new),
                working_tree.modified == count_where(
                    s,
                    i as nat,
                    |s: FileStatus| !s.worktree_new && !s.worktree_deleted && s.worktree_modified,
                ),
                working_tree.deleted == count_where(
                    s,
                    i as nat,
                    |s: FileStatus| !s.worktree_new && s.worktree_deleted,
                ),
                staging.added == count_where(s, i as nat, |s: FileStatus| s.index_new),
                staging.modified == count_where(
                    s,
                    i as nat,
                    |s: FileStatus| !s.index_new && !s.index_deleted && s.index_modified,
                ),
                staging.deleted == count_where(
                    s,
                    i as nat,
                    |s: FileStatus| !s.index_new && s.index_deleted,
                ),
                conflicted == count_where(s, i as nat, |s: FileStatus| s.conflicted),
            decreases statuses.len() - i,
        {
            let status = statuses[i];
            proof {
                lemma_count_bounded(s, i as nat, |s: FileStatus| s.worktree_new);
                lemma_count_bounded(
                    s,
                    i as nat,
                    |s: FileStatus| !s.worktree_new && !s.worktree_deleted && s.worktree_modified,
                );
                lemma_count_bounded(s, i as nat, |s: FileStatus| !s.worktree_new && s.worktree_deleted);
                lemma_count_bounded(s, i as nat, |s: FileStatus| s.index_new);
                lemma_count_bounded(
                    s,
                    i as nat,
                    |s: FileStatus| !s.index_new && !s.index_deleted && s.index_modified,
                );
                lemma_count_bounded(s, i as nat, |s: FileStatus| !s.index_new && s.index_deleted);
                lemma_count_bounded(s, i as nat, |s: FileStatus| s.conflicted);
            }
            if status.index_new {
                staging.added += 1;
            } else if status.index_deleted {
                staging.deleted += 1;
            } else if status.index_modified {
                staging.modified += 1;
            }
            if status.worktree_new {
                working_tree.added += 1;
            } else if status.worktree_deleted {
                working_tree.deleted += 1;
            } else if status.worktree_modified {
                working_tree.modified += 1;
            }
            if status.conflicted {
                conflicted += 1;
            }
            i += 1;
        }
        StatusSummary { working_tree, staging, conflicted }
    }

    /// Whether there are changes, staged or not, or conflicts.
    pub fn any_changes(&self) -> (r: bool)
        ensures
            r == (self.conflicted != 0 || self.working_tree.added != 0
                || self.working_tree.modified != 0 || self.working_tree.deleted != 0
                || self.staging.added != 0 || self.staging.modified != 0
                || self.staging.deleted != 0),
    {
        self.conflicted != 0 || self.working_tree.any_changes() || self.staging.any_changes()
    }
}

} // verus!
