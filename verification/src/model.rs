//! The values a prompt segment is built from.

use vstd::prelude::*;
use crate::text::has_prefix;

verus! {

/// Why an invocation gives up instead of rendering a segment.
#[derive(Debug, Clone, Copy, PartialEq, Eq, Structural)]
pub enum Error {
    /// A marker file's reference text did not resolve to exactly one object.
    AmbiguousOrMissingReference,
    /// The repository's head could not be read at all.
    DetachedOrCorruptHead,
}

/// A commit-id prefix, shortened outside the library so that it was
/// unambiguous in the repository's object database when it was resolved.
#[derive(Debug, Clone, PartialEq, Eq)]
pub struct ShortHash {
    pub text: String,
}

impl View for ShortHash {
    type V = Seq<char>;

    open spec fn view(&self) -> Seq<char> {
        self.text@
    }
}

/// Where the repository's head points: a named branch, or a commit
/// directly when the head is detached.
#[derive(Debug, Clone, PartialEq, Eq)]
pub enum Head {
    Branch(String),
    Commit(ShortHash),
}

/// Ghost image of [`Head`], over character sequences.
pub enum HeadV {
    Branch(Seq<char>),
    Commit(Seq<char>),
}

impl View for Head {
    type V = HeadV;

    open spec fn view(&self) -> HeadV {
        match self {
            Head::Branch(b) => HeadV::Branch(b@),
            Head::Commit(h) => HeadV::Commit(h@),
        }
    }
}

/// The namespaces that are stripped from a full reference name, in the
/// order they are tried: tags, local branches, remote branches.
pub open spec fn shorten_ref_spec(s: Seq<char>) -> Seq<char> {
    if has_prefix(s, "refs/tags/"@) {
        s.skip("refs/tags/"@.len() as int)
    } else if has_prefix(s, "refs/heads/"@) {
        s.skip("refs/heads/"@.len() as int)
    } else if has_prefix(s, "refs/remotes/"@) {
        s.skip("refs/remotes/"@.len() as int)
    } else {
        s
    }
}

impl Head {
    /// The head of a repository whose head reference names a branch:
    /// the namespace prefix is stripped from the full reference name.
    pub fn from_branch_ref(name: &str) -> (h: Head)
        ensures
            h@ == HeadV::Branch(shorten_ref_spec(name@)),
    {
        let short = if let Some(t) = crate::text::strip_prefix(name, "refs/tags/") {
            t
        } else if let Some(t) = crate::text::strip_prefix(name, "refs/heads/") {
            t
        } else if let Some(t) = crate::text::strip_prefix(name, "refs/remotes/") {
            t
        } else {
            String::from_str(name)
        };
        Head::Branch(short)
    }

    /// The head of a repository whose head is detached at a commit.
    pub fn from_commit(hash: ShortHash) -> (h: Head)
        ensures
            h@ == HeadV::Commit(hash@),
    {
        Head::Commit(hash)
    }
}

/// The head value a repository owes for its prompt: a branch when the
/// head reference names one, otherwise the commit the resolver
/// shortened; when the head names no branch and no commit could be
/// resolved either, there is nothing to report and the invocation is
/// fatal.
pub fn head_from_parts(referent: Option<String>, resolved: Option<ShortHash>) -> (r: Result<
    Head,
    Error,
>)
    ensures
        referent matches Some(name) ==> r matches Ok(h) && h@ == HeadV::Branch(
            shorten_ref_spec(name@),
        ),
        referent is None ==> (resolved matches Some(p) ==> r matches Ok(h) && h@ == HeadV::Commit(
            p@,
        )),
        referent is None && resolved is None ==> r == Err::<Head, Error>(
            Error::DetachedOrCorruptHead,
        ),
{
    match referent {
        Some(name) => Ok(Head::from_branch_ref(name.as_str())),
        None => match resolved {
            Some(p) => Ok(Head::from_commit(p)),
            None => Err(Error::DetachedOrCorruptHead),
        },
    }
}

/// Progress of an interactive rebase: the current step number and the
/// total step count, as the counter files spell them.
#[derive(Debug, Clone, PartialEq, Eq)]
pub struct Status {
    pub num: String,
    pub end: String,
}

/// Ghost image of [`Status`].
pub struct StatusV {
    pub num: Seq<char>,
    pub end: Seq<char>,
}

impl View for Status {
    type V = StatusV;

    open spec fn view(&self) -> StatusV {
        StatusV { num: self.num@, end: self.end@ }
    }
}

/// The operation a repository is in the middle of, when there is one.
/// At most one case is active at a time; which one is decided by the
/// precedence of the marker files, not by any stored state.
#[derive(Debug, Clone, PartialEq, Eq)]
pub enum Mode {
    /// A mailbox of patches is being applied.
    ApplyMailbox,
    /// A mailbox-based rebase is in progress.
    Rebase,
    /// The mailbox-apply directory exists, but neither marker file does:
    /// apply and rebase cannot be told apart.
    AmRbs,
    /// An interactive rebase, with the head it started from and its
    /// progress, each when available.
    RebaseInt(Option<Head>, Option<Status>),
    /// A bisect session, with the branch it started from when available.
    Bisect(Option<String>),
    /// A merge of the referenced commit.
    Merge(ShortHash),
    /// A cherry-pick of the referenced commit.
    CherryPick(ShortHash),
    /// A revert of the referenced commit.
    Revert(ShortHash),
}

/// Ghost image of [`Mode`].
pub enum ModeV {
    ApplyMailbox,
    Rebase,
    AmRbs,
    RebaseInt(Option<HeadV>, Option<StatusV>),
    Bisect(Option<Seq<char>>),
    Merge(Seq<char>),
    CherryPick(Seq<char>),
    Revert(Seq<char>),
}

impl View for Mode {
    type V = ModeV;

    open spec fn view(&self) -> ModeV {
        match self {
            Mode::ApplyMailbox => ModeV::ApplyMailbox,
            Mode::Rebase => ModeV::Rebase,
            Mode::AmRbs => ModeV::AmRbs,
            Mode::RebaseInt(b, s) => ModeV::RebaseInt(
                match b {
                    Some(h) => Some(h@),
                    None => None,
                },
                match s {
                    Some(st) => Some(st@),
                    None => None,
                },
            ),
            Mode::Bisect(b) => ModeV::Bisect(
                match b {
                    Some(n) => Some(n@),
                    None => None,
                },
            ),
            Mode::Merge(h) => ModeV::Merge(h@),
            Mode::CherryPick(h) => ModeV::CherryPick(h@),
            Mode::Revert(h) => ModeV::Revert(h@),
        }
    }
}

/// The user the shell runs as, by name.
#[derive(Debug, Clone, PartialEq, Eq)]
pub struct User(pub String);

/// The prompt's final symbol: one form for the superuser, one for
/// everyone else.
#[derive(Debug, Clone, Copy, PartialEq, Eq, Structural)]
pub enum Start {
    Root,
    User,
}

/// The text of the prompt symbol.
pub open spec fn start_symbol_spec(s: Start) -> Seq<char> {
    match s {
        Start::Root => "#"@,
        Start::User => "$"@,
    }
}

impl Start {
    /// Classify the user by name; only the superuser gets [`Start::Root`].
    pub fn new(usr: &User) -> (s: Self)
        ensures
            s is Root <==> usr.0@ == "root"@,
    {
        let root = String::from_str("root");
        if usr.0 == root {
            Start::Root
        } else {
            Start::User
        }
    }

    /// The symbol this classification is drawn with.
    pub fn symbol(&self) -> (r: String)
        ensures
            r@ == start_symbol_spec(*self),
    {
        match self {
            Start::Root => String::from_str("#"),
            Start::User => String::from_str("$"),
        }
    }
}

} // verus!
