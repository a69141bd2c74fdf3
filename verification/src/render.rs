//! Textual rendering of the head and the detected operation.
//!
//! Colour and the surrounding prompt decoration are outside the library;
//! these functions produce the plain text of the segment.

use vstd::prelude::*;
use crate::model::{Head, HeadV, Mode, ModeV, Status, StatusV};

verus! {

/// How a head renders: the branch name as it is, a detached commit as
/// its hash behind a leading colon.
pub open spec fn render_head_spec(h: HeadV) -> Seq<char> {
    match h {
        HeadV::Branch(b) => b,
        HeadV::Commit(p) => ":"@ + p,
    }
}

/// How rebase progress renders: step number, a slash, total step count.
pub open spec fn render_status_spec(s: StatusV) -> Seq<char> {
    s.num + "/"@ + s.end
}

/// The optional head part of an interactive-rebase tag.
pub open spec fn rebase_head_part(b: Option<HeadV>) -> Seq<char> {
    match b {
        Some(h) => " "@ + render_head_spec(h),
        None => Seq::<char>::empty(),
    }
}

/// The optional progress part of an interactive-rebase tag.
pub open spec fn rebase_status_part(s: Option<StatusV>) -> Seq<char> {
    match s {
        Some(st) => " "@ + render_status_spec(st),
        None => Seq::<char>::empty(),
    }
}

/// The optional branch part of a bisect tag.
pub open spec fn bisect_part(b: Option<Seq<char>>) -> Seq<char> {
    match b {
        Some(n) => " "@ + n,
        None => Seq::<char>::empty(),
    }
}

/// The operation tag, one fixed form per case.
pub open spec fn render_mode_spec(m: ModeV) -> Seq<char> {
    match m {
        ModeV::ApplyMailbox => "am"@,
        ModeV::Rebase => "rbs"@,
        ModeV::AmRbs => "am/rbs"@,
        ModeV::RebaseInt(b, s) => "rbs"@ + rebase_head_part(b) + rebase_status_part(s),
        ModeV::Bisect(b) => "bsc"@ + bisect_part(b),
        ModeV::Merge(h) => "mrg :"@ + h,
        ModeV::CherryPick(h) => "chp :"@ + h,
        ModeV::Revert(h) => "rvt :"@ + h,
    }
}

/// The whole segment: the operation tag, when there is one, a space,
/// then the head.
pub open spec fn render_segment_spec(m: Option<ModeV>, h: HeadV) -> Seq<char> {
    match m {
        Some(mm) => render_mode_spec(mm) + " "@ + render_head_spec(h),
        None => render_head_spec(h),
    }
}

/// Render the head segment.
pub fn render_head(h: &Head) -> (r: String)
    ensures
        r@ == render_head_spec(h@),
{
    match h {
        Head::Branch(b) => b.clone(),
        Head::Commit(p) => String::from_str(":").concat(p.text.as_str()),
    }
}

/// Render rebase progress.
pub fn render_status(s: &Status) -> (r: String)
    ensures
        r@ == render_status_spec(s@),
{
    s.num.clone().concat("/").concat(s.end.as_str())
}

/// Render the operation tag.
pub fn render_mode(m: &Mode) -> (r: String)
    ensures
        r@ == render_mode_spec(m@),
{
    match m {
        Mode::ApplyMailbox => String::from_str("am"),
        Mode::Rebase => String::from_str("rbs"),
        Mode::AmRbs => String::from_str("am/rbs"),
        Mode::RebaseInt(branch, status) => {
            let ghost bv: Option<HeadV> = match branch {
                Some(h) => Some(h@),
                None => None,
            };
            let ghost sv: Option<StatusV> = match status {
                Some(st) => Some(st@),
                None => None,
            };
            let mut out = String::from_str("rbs");
            match branch {
                Some(b) => {
                    out.append(" ");
                    let hb = render_head(b);
                    out.append(hb.as_str());
                },
                None => {},
            }
            proof {
                assert(out@ =~= "rbs"@ + rebase_head_part(bv));
            }
            let ghost prefix = out@;
            match status {
                Some(st) => {
                    out.append(" ");
                    let sb = render_status(st);
                    out.append(sb.as_str());
                },
                None => {},
            }
            proof {
                assert(out@ =~= prefix + rebase_status_part(sv));
            }
            out
        },
        Mode::Bisect(branch) => {
            let ghost bv: Option<Seq<char>> = match branch {
                Some(n) => Some(n@),
                None => None,
            };
            let mut out = String::from_str("bsc");
            match branch {
                Some(b) => {
                    out.append(" ");
                    out.append(b.as_str());
                },
                None => {},
            }
            proof {
                assert(out@ =~= "bsc"@ + bisect_part(bv));
            }
            out
        },
        Mode::Merge(h) => String::from_str("mrg :").concat(h.text.as_str()),
        Mode::CherryPick(h) => String::from_str("chp :").concat(h.text.as_str()),
        Mode::Revert(h) => String::from_str("rvt :").concat(h.text.as_str()),
    }
}

/// Render the whole segment from the detected operation and the head.
pub fn render_segment(mode: &Option<Mode>, head: &Head) -> (r: String)
    ensures
        r@ == render_segment_spec(
            match mode {
                Some(m) => Some(m@),
                None => None,
            },
            head@,
        ),
{
    match mode {
        Some(m) => {
            let mut out = render_mode(m);
            out.append(" ");
            let hs = render_head(head);
            out.append(hs.as_str());
            out
        },
        None => render_head(head),
    }
}

/// A detached head always renders with a leading colon before the hash.
pub proof fn lemma_detached_leading_colon(h: HeadV)
    requires
        h is Commit,
    ensures
        render_head_spec(h).len() >= 1,
        render_head_spec(h)[0] == ':',
{
    reveal_strlit(":");
}

} // verus!
