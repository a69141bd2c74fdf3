//! Classification of what a repository is in the middle of, from a
//! snapshot of its metadata directory.

use vstd::prelude::*;
use crate::model::{Error, HeadV, Mode, ModeV, ShortHash, Status, StatusV};
use crate::text::{has_prefix, trim_end_spec, trim_spec, trim_in_place, trim_text, strip_prefix};

verus! {

/// The view of an optional piece of text.
pub open spec fn opt_view(o: Option<String>) -> Option<Seq<char>> {
    match o {
        Some(s) => Some(s@),
        None => None,
    }
}

/// What one invocation finds in the repository's metadata directory:
/// which marker files and directories exist, and the text of each marker
/// file that could be read. A file that is absent — or unreadable, which
/// is treated the same — is `None`.
#[derive(Debug, Clone, PartialEq, Eq)]
pub struct MetaSnapshot {
    /// `rebase-apply/applying` exists as a file.
    pub rebase_apply_applying: bool,
    /// `rebase-apply/rebasing` exists as a file.
    pub rebase_apply_rebasing: bool,
    /// `rebase-apply` exists as a directory.
    pub rebase_apply_dir: bool,
    /// `rebase-merge` exists as a directory.
    pub rebase_merge_dir: bool,
    /// Text of `rebase-merge/head-name`.
    pub rebase_head_name: Option<String>,
    /// Text of `rebase-merge/orig-head`.
    pub rebase_orig_head: Option<String>,
    /// Text of `rebase-merge/msgnum`.
    pub rebase_msgnum: Option<String>,
    /// Text of `rebase-merge/end`.
    pub rebase_end: Option<String>,
    /// `BISECT_LOG` exists as a file.
    pub bisect_log: bool,
    /// Text of `BISECT_START`.
    pub bisect_start: Option<String>,
    /// Text of `MERGE_HEAD`.
    pub merge_head: Option<String>,
    /// Text of `CHERRY_PICK_HEAD`.
    pub cherry_pick_head: Option<String>,
    /// Text of `REVERT_HEAD`.
    pub revert_head: Option<String>,
}

/// Ghost image of [`MetaSnapshot`].
pub struct MetaSnapshotV {
    pub rebase_apply_applying: bool,
    pub rebase_apply_rebasing: bool,
    pub rebase_apply_dir: bool,
    pub rebase_merge_dir: bool,
    pub rebase_head_name: Option<Seq<char>>,
    pub rebase_orig_head: Option<Seq<char>>,
    pub rebase_msgnum: Option<Seq<char>>,
    pub rebase_end: Option<Seq<char>>,
    pub bisect_log: bool,
    pub bisect_start: Option<Seq<char>>,
    pub merge_head: Option<Seq<char>>,
    pub cherry_pick_head: Option<Seq<char>>,
    pub revert_head: Option<Seq<char>>,
}

impl View for MetaSnapshot {
    type V = MetaSnapshotV;

    open spec fn view(&self) -> MetaSnapshotV {
        MetaSnapshotV {
            rebase_apply_applying: self.rebase_apply_applying,
            rebase_apply_rebasing: self.rebase_apply_rebasing,
            rebase_apply_dir: self.rebase_apply_dir,
            rebase_merge_dir: self.rebase_merge_dir,
            rebase_head_name: opt_view(self.rebase_head_name),
            rebase_orig_head: opt_view(self.rebase_orig_head),
            rebase_msgnum: opt_view(self.rebase_msgnum),
            rebase_end: opt_view(self.rebase_end),
            bisect_log: self.bisect_log,
            bisect_start: opt_view(self.bisect_start),
            merge_head: opt_view(self.merge_head),
            cherry_pick_head: opt_view(self.cherry_pick_head),
            revert_head: opt_view(self.revert_head),
        }
    }
}

impl MetaSnapshot {
    /// A snapshot of a metadata directory with no marker at all.
    pub fn clear() -> (s: MetaSnapshot)
        ensures
            s@ == empty_snapshot(),
    {
        MetaSnapshot {
            rebase_apply_applying: false,
            rebase_apply_rebasing: false,
            rebase_apply_dir: false,
            rebase_merge_dir: false,
            rebase_head_name: None,
            rebase_orig_head: None,
            rebase_msgnum: None,
            rebase_end: None,
            bisect_log: false,
            bisect_start: None,
            merge_head: None,
            cherry_pick_head: None,
            revert_head: None,
        }
    }
}

/// The snapshot of a metadata directory with no marker at all.
pub open spec fn empty_snapshot() -> MetaSnapshotV {
    MetaSnapshotV {
        rebase_apply_applying: false,
        rebase_apply_rebasing: false,
        rebase_apply_dir: false,
        rebase_merge_dir: false,
        rebase_head_name: None,
        rebase_orig_head: None,
        rebase_msgnum: None,
        rebase_end: None,
        bisect_log: false,
        bisect_start: None,
        merge_head: None,
        cherry_pick_head: None,
        revert_head: None,
    }
}

/// One reference that still has to be resolved against the object
/// database before the classification is complete. The `text` field is
/// already trimmed and ready to hand to the resolver.
#[derive(Debug, Clone, PartialEq, Eq)]
pub enum HashQuery {
    /// `rebase-merge/orig-head`, the fallback identity of the head an
    /// interactive rebase started from; progress travels along.
    RebaseOrigHead { text: String, progress: Option<Status> },
    /// `MERGE_HEAD`.
    MergeHead { text: String },
    /// `CHERRY_PICK_HEAD`.
    CherryPickHead { text: String },
    /// `REVERT_HEAD`.
    RevertHead { text: String },
}

/// Ghost image of [`HashQuery`].
pub enum HashQueryV {
    RebaseOrigHead { text: Seq<char>, progress: Option<StatusV> },
    MergeHead { text: Seq<char> },
    CherryPickHead { text: Seq<char> },
    RevertHead { text: Seq<char> },
}

impl View for HashQuery {
    type V = HashQueryV;

    open spec fn view(&self) -> HashQueryV {
        match self {
            HashQuery::RebaseOrigHead { text, progress } => HashQueryV::RebaseOrigHead {
                text: text@,
                progress: match progress {
                    Some(p) => Some(p@),
                    None => None,
                },
            },
            HashQuery::MergeHead { text } => HashQueryV::MergeHead { text: text@ },
            HashQuery::CherryPickHead { text } => HashQueryV::CherryPickHead { text: text@ },
            HashQuery::RevertHead { text } => HashQueryV::RevertHead { text: text@ },
        }
    }
}

/// The outcome of inspecting the metadata directory: nothing is going
/// on, a complete classification, or one that waits for a single
/// reference to be resolved.
#[derive(Debug, Clone, PartialEq, Eq)]
pub enum Detection {
    /// No operation is in progress.
    Clear,
    /// The classification is complete as it stands.
    Ready(Mode),
    /// The classification is complete once the query's reference is
    /// resolved; [`finish`] folds the resolver's answer in.
    NeedsHash(HashQuery),
}

/// Ghost image of [`Detection`].
pub enum DetectionV {
    Clear,
    Ready(ModeV),
    NeedsHash(HashQueryV),
}

impl View for Detection {
    type V = DetectionV;

    open spec fn view(&self) -> DetectionV {
        match self {
            Detection::Clear => DetectionV::Clear,
            Detection::Ready(m) => DetectionV::Ready(m@),
            Detection::NeedsHash(q) => DetectionV::NeedsHash(q@),
        }
    }
}

/// The branch an interactive rebase came from, when `head-name` was
/// readable and carries the branch namespace: the namespace is stripped
/// and trailing white space removed. Any other content falls through to
/// the `orig-head` fallback.
pub open spec fn head_name_branch_spec(t: Seq<char>) -> Option<Seq<char>> {
    if has_prefix(t, "refs/heads/"@) {
        Some(trim_end_spec(t.skip("refs/heads/"@.len() as int)))
    } else {
        None
    }
}

/// Rebase progress is present only when both counter files were read;
/// one counter alone yields no progress at all.
pub open spec fn progress_spec(num: Option<Seq<char>>, end: Option<Seq<char>>) -> Option<StatusV> {
    if num is Some && end is Some {
        Some(StatusV { num: trim_end_spec(num.unwrap()), end: trim_end_spec(end.unwrap()) })
    } else {
        None
    }
}

/// The classification of an interactive rebase, given the snapshot's
/// `rebase-merge` file texts.
pub open spec fn rebase_int_spec(s: MetaSnapshotV) -> DetectionV {
    let progress = progress_spec(s.rebase_msgnum, s.rebase_end);
    if s.rebase_head_name is Some && head_name_branch_spec(s.rebase_head_name.unwrap()) is Some {
        DetectionV::Ready(ModeV::RebaseInt(
            Some(HeadV::Branch(head_name_branch_spec(s.rebase_head_name.unwrap()).unwrap())),
            progress,
        ))
    } else if s.rebase_orig_head is Some {
        DetectionV::NeedsHash(HashQueryV::RebaseOrigHead {
            text: trim_spec(s.rebase_orig_head.unwrap()),
            progress,
        })
    } else {
        DetectionV::Ready(ModeV::RebaseInt(None, progress))
    }
}

/// The classification the detector owes for a snapshot: a fixed, ordered
/// chain of checks in which the first match wins, because marker files
/// of different operations can coexist on disk during transitions.
pub open spec fn detect_spec(s: MetaSnapshotV) -> DetectionV {
    if s.rebase_apply_applying {
        DetectionV::Ready(ModeV::ApplyMailbox)
    } else if s.rebase_apply_rebasing {
        DetectionV::Ready(ModeV::Rebase)
    } else if s.rebase_apply_dir {
        DetectionV::Ready(ModeV::AmRbs)
    } else if s.rebase_merge_dir {
        rebase_int_spec(s)
    } else if s.bisect_log {
        DetectionV::Ready(ModeV::Bisect(
            match s.bisect_start {
                Some(b) => Some(trim_end_spec(b)),
                None => None,
            },
        ))
    } else if s.merge_head is Some {
        DetectionV::NeedsHash(HashQueryV::MergeHead { text: trim_spec(s.merge_head.unwrap()) })
    } else if s.cherry_pick_head is Some {
        DetectionV::NeedsHash(
            HashQueryV::CherryPickHead { text: trim_spec(s.cherry_pick_head.unwrap()) },
        )
    } else if s.revert_head is Some {
        DetectionV::NeedsHash(HashQueryV::RevertHead { text: trim_spec(s.revert_head.unwrap()) })
    } else {
        DetectionV::Clear
    }
}

/// Classify what the repository is in the middle of, by the fixed
/// precedence over its marker files.
pub fn detect(snap: &MetaSnapshot) -> (d: Detection)
    ensures
        d@ == detect_spec(snap@),
{
    if snap.rebase_apply_applying {
        Detection::Ready(Mode::ApplyMailbox)
    } else if snap.rebase_apply_rebasing {
        Detection::Ready(Mode::Rebase)
    } else if snap.rebase_apply_dir {
        Detection::Ready(Mode::AmRbs)
    } else if snap.rebase_merge_dir {
        let progress: Option<Status> = match (&snap.rebase_msgnum, &snap.rebase_end) {
            (Some(num), Some(end)) => Some(
                Status {
                    num: trim_in_place(num.clone()),
                    end: trim_in_place(end.clone()),
                },
            ),
            _ => None,
        };
        let branch: Option<String> = match &snap.rebase_head_name {
            Some(t) => strip_prefix(t.as_str(), "refs/heads/"),
            None => None,
        };
        match branch {
            Some(b) => Detection::Ready(
                Mode::RebaseInt(Some(crate::model::Head::Branch(trim_in_place(b))), progress),
            ),
            None => match &snap.rebase_orig_head {
                Some(t) => Detection::NeedsHash(
                    HashQuery::RebaseOrigHead { text: trim_text(t.as_str()), progress },
                ),
                None => Detection::Ready(Mode::RebaseInt(None, progress)),
            },
        }
    } else if snap.bisect_log {
        let branch: Option<String> = match &snap.bisect_start {
            Some(b) => Some(trim_in_place(b.clone())),
            None => None,
        };
        Detection::Ready(Mode::Bisect(branch))
    } else if let Some(sha) = &snap.merge_head {
        Detection::NeedsHash(HashQuery::MergeHead { text: trim_text(sha.as_str()) })
    } else if let Some(sha) = &snap.cherry_pick_head {
        Detection::NeedsHash(HashQuery::CherryPickHead { text: trim_text(sha.as_str()) })
    } else if let Some(sha) = &snap.revert_head {
        Detection::NeedsHash(HashQuery::RevertHead { text: trim_text(sha.as_str()) })
    } else {
        Detection::Clear
    }
}

/// The completed classification once the resolver has answered a query:
/// a failed resolution of a present marker is fatal, never skipped.
pub open spec fn finish_spec(q: HashQueryV, outcome: Option<Seq<char>>) -> Result<ModeV, Error> {
    match outcome {
        None => Err(Error::AmbiguousOrMissingReference),
        Some(h) => Ok(
            match q {
                HashQueryV::RebaseOrigHead { progress, .. } => ModeV::RebaseInt(
                    Some(HeadV::Commit(h)),
                    progress,
                ),
                HashQueryV::MergeHead { .. } => ModeV::Merge(h),
                HashQueryV::CherryPickHead { .. } => ModeV::CherryPick(h),
                HashQueryV::RevertHead { .. } => ModeV::Revert(h),
            },
        ),
    }
}

/// Fold the resolver's answer into a pending classification. `outcome`
/// is the resolver's result for the query's text: the shortened hash,
/// or `None` when the text did not resolve to exactly one object.
pub fn finish(q: HashQuery, outcome: Option<ShortHash>) -> (r: Result<Mode, Error>)
    ensures
        outcome is None ==> r == Err::<Mode, Error>(Error::AmbiguousOrMissingReference),
        outcome matches Some(h) ==> r matches Ok(m) && m@ == finish_spec(q@, Some(h@))->Ok_0,
{
    match outcome {
        None => Err(Error::AmbiguousOrMissingReference),
        Some(h) => Ok(
            match q {
                HashQuery::RebaseOrigHead { progress, .. } => Mode::RebaseInt(
                    Some(crate::model::Head::Commit(h)),
                    progress,
                ),
                HashQuery::MergeHead { .. } => Mode::Merge(h),
                HashQuery::CherryPickHead { .. } => Mode::CherryPick(h),
                HashQuery::RevertHead { .. } => Mode::Revert(h),
            },
        ),
    }
}

/// The mailbox-apply marker takes precedence over everything later in
/// the chain: while `rebase-apply/applying` exists, a coexisting
/// `MERGE_HEAD` — or any other marker — is never reached.
pub proof fn lemma_apply_mailbox_wins(s: MetaSnapshotV)
    requires
        s.rebase_apply_applying,
    ensures
        detect_spec(s) == DetectionV::Ready(ModeV::ApplyMailbox),
{
}

/// Rebase progress is all or nothing: when either counter file is
/// missing, the classification carries no progress, never a half-filled
/// pair.
pub proof fn lemma_progress_all_or_nothing(s: MetaSnapshotV)
    requires
        !(s.rebase_msgnum is Some && s.rebase_end is Some),
    ensures
        detect_spec(s) matches DetectionV::Ready(m) ==> (m matches ModeV::RebaseInt(_, p)
            ==> p is None),
        detect_spec(s) matches DetectionV::NeedsHash(q) ==> (q matches HashQueryV::RebaseOrigHead {
            progress,
            ..
        } ==> progress is None),
{
}

/// A branch stored in `head-name` under the branch namespace comes out
/// with the namespace stripped and trailing white space removed.
pub proof fn lemma_head_name_branch_stripped(s: MetaSnapshotV, t: Seq<char>)
    requires
        !s.rebase_apply_applying,
        !s.rebase_apply_rebasing,
        !s.rebase_apply_dir,
        s.rebase_merge_dir,
        s.rebase_head_name == Some(t),
        has_prefix(t, "refs/heads/"@),
    ensures
        detect_spec(s) == DetectionV::Ready(
            ModeV::RebaseInt(
                Some(HeadV::Branch(trim_end_spec(t.skip(11)))),
                progress_spec(s.rebase_msgnum, s.rebase_end),
            ),
        ),
{
    reveal_strlit("refs/heads/");
}

} // verus!
