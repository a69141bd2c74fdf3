use git_prompt::detect::{detect, finish, Detection, HashQuery, MetaSnapshot};
use git_prompt::model::{head_from_parts, Error, Head, Mode, ShortHash, Start, Status, User};
use git_prompt::render::{render_head, render_mode, render_segment, render_status};
use git_prompt::text::{strip_prefix, trim_in_place, trim_text};

fn empty_snap() -> MetaSnapshot {
    MetaSnapshot::clear()
}

fn short(text: &str) -> ShortHash {
    ShortHash { text: text.to_string() }
}

#[test]
fn detect_apply_mailbox() {
    let mut snap = empty_snap();
    snap.rebase_apply_applying = true;
    assert_eq!(detect(&snap), Detection::Ready(Mode::ApplyMailbox));
}

#[test]
fn detect_mailbox_rebase() {
    let mut snap = empty_snap();
    snap.rebase_apply_rebasing = true;
    snap.rebase_apply_dir = true;
    assert_eq!(detect(&snap), Detection::Ready(Mode::Rebase));
}

#[test]
fn detect_ambiguous_am_rbs() {
    let mut snap = empty_snap();
    snap.rebase_apply_dir = true;
    assert_eq!(detect(&snap), Detection::Ready(Mode::AmRbs));
}

#[test]
fn detect_interactive_rebase_full() {
    let mut snap = empty_snap();
    snap.rebase_merge_dir = true;
    snap.rebase_head_name = Some("refs/heads/feat\n".to_string());
    snap.rebase_msgnum = Some("2\n".to_string());
    snap.rebase_end = Some("5\n".to_string());
    assert_eq!(
        detect(&snap),
        Detection::Ready(Mode::RebaseInt(
            Some(Head::Branch("feat".to_string())),
            Some(Status { num: "2".to_string(), end: "5".to_string() }),
        ))
    );
}

#[test]
fn detect_interactive_rebase_orig_head_fallback() {
    let mut snap = empty_snap();
    snap.rebase_merge_dir = true;
    snap.rebase_orig_head = Some("deadbeef\n".to_string());
    assert_eq!(
        detect(&snap),
        Detection::NeedsHash(HashQuery::RebaseOrigHead {
            text: "deadbeef".to_string(),
            progress: None,
        })
    );
}

#[test]
fn detect_interactive_rebase_unprefixed_head_name_falls_back() {
    let mut snap = empty_snap();
    snap.rebase_merge_dir = true;
    snap.rebase_head_name = Some("detached\n".to_string());
    snap.rebase_orig_head = Some("deadbeef\n".to_string());
    assert_eq!(
        detect(&snap),
        Detection::NeedsHash(HashQuery::RebaseOrigHead {
            text: "deadbeef".to_string(),
            progress: None,
        })
    );
}

#[test]
fn detect_interactive_rebase_headless() {
    let mut snap = empty_snap();
    snap.rebase_merge_dir = true;
    assert_eq!(detect(&snap), Detection::Ready(Mode::RebaseInt(None, None)));
}

#[test]
fn detect_bisect_with_start() {
    let mut snap = empty_snap();
    snap.bisect_log = true;
    snap.bisect_start = Some("main\n".to_string());
    assert_eq!(
        detect(&snap),
        Detection::Ready(Mode::Bisect(Some("main".to_string())))
    );
}

#[test]
fn detect_bisect_without_start() {
    let mut snap = empty_snap();
    snap.bisect_log = true;
    assert_eq!(detect(&snap), Detection::Ready(Mode::Bisect(None)));
}

#[test]
fn detect_merge() {
    let mut snap = empty_snap();
    snap.merge_head = Some("abc123def\n".to_string());
    assert_eq!(
        detect(&snap),
        Detection::NeedsHash(HashQuery::MergeHead { text: "abc123def".to_string() })
    );
}

#[test]
fn detect_cherry_pick() {
    let mut snap = empty_snap();
    snap.cherry_pick_head = Some("0123abcd\n".to_string());
    assert_eq!(
        detect(&snap),
        Detection::NeedsHash(HashQuery::CherryPickHead { text: "0123abcd".to_string() })
    );
}

#[test]
fn detect_revert() {
    let mut snap = empty_snap();
    snap.revert_head = Some("0123abcd\n".to_string());
    assert_eq!(
        detect(&snap),
        Detection::NeedsHash(HashQuery::RevertHead { text: "0123abcd".to_string() })
    );
}

#[test]
fn detect_nothing() {
    assert_eq!(detect(&empty_snap()), Detection::Clear);
}

#[test]
fn apply_mailbox_beats_merge_head() {
    let mut snap = empty_snap();
    snap.rebase_apply_applying = true;
    snap.merge_head = Some("abc123def\n".to_string());
    assert_eq!(detect(&snap), Detection::Ready(Mode::ApplyMailbox));
}

#[test]
fn rebase_merge_beats_bisect_and_merge() {
    let mut snap = empty_snap();
    snap.rebase_merge_dir = true;
    snap.bisect_log = true;
    snap.merge_head = Some("abc123def\n".to_string());
    assert_eq!(detect(&snap), Detection::Ready(Mode::RebaseInt(None, None)));
}

#[test]
fn merge_beats_cherry_pick_and_revert() {
    let mut snap = empty_snap();
    snap.merge_head = Some("aaa\n".to_string());
    snap.cherry_pick_head = Some("bbb\n".to_string());
    snap.revert_head = Some("ccc\n".to_string());
    assert_eq!(
        detect(&snap),
        Detection::NeedsHash(HashQuery::MergeHead { text: "aaa".to_string() })
    );
}

#[test]
fn progress_absent_with_msgnum_only() {
    let mut snap = empty_snap();
    snap.rebase_merge_dir = true;
    snap.rebase_head_name = Some("refs/heads/feat\n".to_string());
    snap.rebase_msgnum = Some("2\n".to_string());
    assert_eq!(
        detect(&snap),
        Detection::Ready(Mode::RebaseInt(Some(Head::Branch("feat".to_string())), None))
    );
}

#[test]
fn progress_absent_with_end_only() {
    let mut snap = empty_snap();
    snap.rebase_merge_dir = true;
    snap.rebase_head_name = Some("refs/heads/feat\n".to_string());
    snap.rebase_end = Some("5\n".to_string());
    assert_eq!(
        detect(&snap),
        Detection::Ready(Mode::RebaseInt(Some(Head::Branch("feat".to_string())), None))
    );
}

#[test]
fn head_name_prefix_stripped_and_trimmed() {
    let mut snap = empty_snap();
    snap.rebase_merge_dir = true;
    snap.rebase_head_name = Some("refs/heads/feature  \n".to_string());
    assert_eq!(
        detect(&snap),
        Detection::Ready(Mode::RebaseInt(Some(Head::Branch("feature".to_string())), None))
    );
}

#[test]
fn finish_merge_success() {
    let q = HashQuery::MergeHead { text: "abc123def".to_string() };
    assert_eq!(finish(q, Some(short("abc12"))), Ok(Mode::Merge(short("abc12"))));
}

#[test]
fn finish_cherry_pick_success() {
    let q = HashQuery::CherryPickHead { text: "0123abcd".to_string() };
    assert_eq!(finish(q, Some(short("0123"))), Ok(Mode::CherryPick(short("0123"))));
}

#[test]
fn finish_revert_success() {
    let q = HashQuery::RevertHead { text: "0123abcd".to_string() };
    assert_eq!(finish(q, Some(short("0123"))), Ok(Mode::Revert(short("0123"))));
}

#[test]
fn finish_rebase_orig_head_success() {
    let q = HashQuery::RebaseOrigHead {
        text: "deadbeef".to_string(),
        progress: Some(Status { num: "1".to_string(), end: "4".to_string() }),
    };
    assert_eq!(
        finish(q, Some(short("dead"))),
        Ok(Mode::RebaseInt(
            Some(Head::Commit(short("dead"))),
            Some(Status { num: "1".to_string(), end: "4".to_string() }),
        ))
    );
}

#[test]
fn finish_failed_resolution_is_fatal() {
    let q = HashQuery::MergeHead { text: "nonsense".to_string() };
    assert_eq!(finish(q, None), Err(Error::AmbiguousOrMissingReference));
}

#[test]
fn merge_end_to_end() {
    let mut snap = empty_snap();
    snap.merge_head = Some("abc123def\n".to_string());
    let q = match detect(&snap) {
        Detection::NeedsHash(q) => q,
        other => panic!("unexpected detection {:?}", other),
    };
    assert_eq!(q, HashQuery::MergeHead { text: "abc123def".to_string() });
    let mode = finish(q, Some(short("abc12"))).unwrap();
    assert_eq!(render_mode(&mode), "mrg :abc12");
}

#[test]
fn quiet_end_to_end() {
    assert_eq!(detect(&empty_snap()), Detection::Clear);
    let head = Head::Branch("main".to_string());
    assert_eq!(render_segment(&None, &head), "main");
}

#[test]
fn render_detached_head_has_leading_colon() {
    let rendered = render_head(&Head::Commit(short("abc12")));
    assert_eq!(rendered, ":abc12");
    assert!(rendered.starts_with(':'));
}

#[test]
fn render_branch_head() {
    assert_eq!(render_head(&Head::Branch("main".to_string())), "main");
}

#[test]
fn render_status_pair() {
    let s = Status { num: "2".to_string(), end: "5".to_string() };
    assert_eq!(render_status(&s), "2/5");
}

#[test]
fn render_bare_modes() {
    assert_eq!(render_mode(&Mode::ApplyMailbox), "am");
    assert_eq!(render_mode(&Mode::Rebase), "rbs");
    assert_eq!(render_mode(&Mode::AmRbs), "am/rbs");
}

#[test]
fn render_interactive_rebase_modes() {
    assert_eq!(render_mode(&Mode::RebaseInt(None, None)), "rbs");
    assert_eq!(
        render_mode(&Mode::RebaseInt(Some(Head::Branch("feat".to_string())), None)),
        "rbs feat"
    );
    assert_eq!(
        render_mode(&Mode::RebaseInt(
            Some(Head::Branch("feat".to_string())),
            Some(Status { num: "2".to_string(), end: "5".to_string() }),
        )),
        "rbs feat 2/5"
    );
    assert_eq!(
        render_mode(&Mode::RebaseInt(
            Some(Head::Commit(short("dead"))),
            Some(Status { num: "1".to_string(), end: "4".to_string() }),
        )),
        "rbs :dead 1/4"
    );
    assert_eq!(
        render_mode(&Mode::RebaseInt(
            None,
            Some(Status { num: "1".to_string(), end: "4".to_string() }),
        )),
        "rbs 1/4"
    );
}

#[test]
fn render_bisect_modes() {
    assert_eq!(render_mode(&Mode::Bisect(None)), "bsc");
    assert_eq!(render_mode(&Mode::Bisect(Some("main".to_string()))), "bsc main");
}

#[test]
fn render_hash_modes() {
    assert_eq!(render_mode(&Mode::Merge(short("ab1"))), "mrg :ab1");
    assert_eq!(render_mode(&Mode::CherryPick(short("ab1"))), "chp :ab1");
    assert_eq!(render_mode(&Mode::Revert(short("ab1"))), "rvt :ab1");
}

#[test]
fn render_segment_with_mode() {
    let head = Head::Branch("main".to_string());
    assert_eq!(
        render_segment(&Some(Mode::Merge(short("abc12"))), &head),
        "mrg :abc12 main"
    );
}

#[test]
fn render_segment_detached() {
    let head = Head::Commit(short("abc12"));
    assert_eq!(render_segment(&None, &head), ":abc12");
}

#[test]
fn trim_in_place_drops_trailing_space_only() {
    assert_eq!(trim_in_place("  ab \n".to_string()), "  ab");
    assert_eq!(trim_in_place("ab".to_string()), "ab");
    assert_eq!(trim_in_place("".to_string()), "");
    assert_eq!(trim_in_place(" \t\n".to_string()), "");
}

#[test]
fn trim_text_drops_both_ends() {
    assert_eq!(trim_text(" \tabc d\n "), "abc d");
    assert_eq!(trim_text("abc"), "abc");
    assert_eq!(trim_text("  "), "");
    assert_eq!(trim_text(""), "");
}

#[test]
fn trim_text_is_idempotent_on_samples() {
    for sample in [" a b ", "x", "", "\n\nq\t"] {
        let once = trim_text(sample);
        let twice = trim_text(once.as_str());
        assert_eq!(once, twice);
    }
}

#[test]
fn strip_prefix_cases() {
    assert_eq!(strip_prefix("refs/heads/main", "refs/heads/"), Some("main".to_string()));
    assert_eq!(strip_prefix("refs/tags/v1", "refs/heads/"), None);
    assert_eq!(strip_prefix("ref", "refs/heads/"), None);
    assert_eq!(strip_prefix("abc", ""), Some("abc".to_string()));
}

#[test]
fn branch_ref_namespaces_are_stripped() {
    assert_eq!(Head::from_branch_ref("refs/heads/main"), Head::Branch("main".to_string()));
    assert_eq!(Head::from_branch_ref("refs/tags/v1.0"), Head::Branch("v1.0".to_string()));
    assert_eq!(
        Head::from_branch_ref("refs/remotes/origin/main"),
        Head::Branch("origin/main".to_string())
    );
    assert_eq!(Head::from_branch_ref("HEAD"), Head::Branch("HEAD".to_string()));
}

#[test]
fn head_from_parts_prefers_branch() {
    assert_eq!(
        head_from_parts(Some("refs/heads/main".to_string()), None),
        Ok(Head::Branch("main".to_string()))
    );
    assert_eq!(
        head_from_parts(Some("refs/heads/main".to_string()), Some(short("abc12"))),
        Ok(Head::Branch("main".to_string()))
    );
}

#[test]
fn head_from_parts_detached() {
    assert_eq!(
        head_from_parts(None, Some(short("abc12"))),
        Ok(Head::Commit(short("abc12")))
    );
}

#[test]
fn head_from_parts_unreadable_is_fatal() {
    assert_eq!(head_from_parts(None, None), Err(Error::DetachedOrCorruptHead));
}

#[test]
fn start_classification() {
    assert_eq!(Start::new(&User("root".to_string())), Start::Root);
    assert_eq!(Start::new(&User("alice".to_string())), Start::User);
    assert_eq!(Start::new(&User("".to_string())), Start::User);
    assert_eq!(Start::Root.symbol(), "#");
    assert_eq!(Start::User.symbol(), "$");
}
