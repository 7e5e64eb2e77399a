use brick_audit::audit::audit_entries;
use brick_audit::audit::audit_link;
use brick_audit::audit::audit_parent;
use brick_audit::audit::audit_self;
use brick_audit::audit::is_reserved_name;
use brick_audit::audit::judge_entry;
use brick_audit::audit::ObservedEntry;
use brick_audit::audit::ParentStep;
use brick_audit::audit::Report;
use brick_audit::audit::SelfStep;
use brick_audit::verdict::report_line;
use brick_audit::verdict::Verdict;
use brick_audit::verdict::VerdictKind;

const SELF_ID: &str = "11111111-1111-1111-1111-111111111111";
const PARENT_ID: &str = "22222222-2222-2222-2222-222222222222";
const GOOD_TARGET: &str = "../../22/22/22222222-2222-2222-2222-222222222222/d1";

fn entry(
    path: &str,
    name: &str,
    is_dir: bool,
    self_attr: Option<Vec<u8>>,
    parent_attr: Option<Vec<u8>>,
    link_target: Option<&str>,
) -> ObservedEntry {
    ObservedEntry {
        path: path.to_string(),
        name: name.to_string(),
        is_dir,
        self_attr,
        parent_attr,
        link_target: link_target.map(|s| s.to_string()),
    }
}

#[test]
fn reserved_names_are_recognised() {
    assert!(is_reserved_name(".glusterfs"));
    assert!(is_reserved_name(".glusterfs-tmp"));
    assert!(is_reserved_name(".trashcan"));
    assert!(is_reserved_name(".shard"));
    assert!(is_reserved_name(".shard-meta"));
    assert!(!is_reserved_name("d1"));
    assert!(!is_reserved_name(".glu"));
    assert!(!is_reserved_name(""));
    assert!(!is_reserved_name("glusterfs"));
}

#[test]
fn missing_attribute_is_judged_without_parent_lookup() {
    match audit_self("/b", None) {
        SelfStep::Judged { judgement } => {
            assert_eq!(judgement.verdict.kind(), VerdictKind::NoGfid);
            assert_eq!(judgement.gfid, "");
            assert_eq!(judgement.pgfid, "");
        }
        SelfStep::NeedParent { .. } => {
            panic!("a directory without an identifier must not cost a parent lookup")
        }
    }
}

#[test]
fn malformed_attribute_is_judged_invalid() {
    match audit_self("/b", Some(vec![0xab; 9])) {
        SelfStep::Judged { judgement } => {
            match &judgement.verdict {
                Verdict::InvalidGfid { raw } => assert_eq!(raw, &vec![0xab; 9]),
                v => panic!("expected an invalid-identifier verdict, got {:?}", v),
            }
            assert_eq!(judgement.gfid, "");
        }
        SelfStep::NeedParent { .. } => {
            panic!("a malformed identifier must not cost a parent lookup")
        }
    }
}

#[test]
fn resolved_attribute_asks_for_parent_and_link_path() {
    match audit_self("/b", Some(vec![0x11; 16])) {
        SelfStep::NeedParent { gfid, link_path } => {
            assert_eq!(gfid, SELF_ID);
            assert_eq!(link_path, format!("/b/.glusterfs/11/11/{}", SELF_ID));
        }
        SelfStep::Judged { judgement } => {
            panic!("a well-formed identifier was judged {:?}", judgement.verdict)
        }
    }
}

#[test]
fn missing_parent_attribute_is_no_pgfid() {
    let step = audit_parent(SELF_ID.to_string(), "lp".to_string(), "d1", None);
    match step {
        ParentStep::Judged { judgement } => {
            assert_eq!(judgement.verdict.kind(), VerdictKind::NoPgfid);
            assert_eq!(judgement.gfid, SELF_ID);
            assert_eq!(judgement.pgfid, "");
        }
        ParentStep::NeedLink { .. } => {
            panic!("a missing parent identifier must not cost a link read")
        }
    }
}

#[test]
fn malformed_parent_attribute_is_invalid_pgfid() {
    let step = audit_parent(SELF_ID.to_string(), "lp".to_string(), "d1", Some(vec![1, 2, 3]));
    match step {
        ParentStep::Judged { judgement } => {
            match &judgement.verdict {
                Verdict::InvalidPGfid { raw } => assert_eq!(raw, &vec![1, 2, 3]),
                v => panic!("expected an invalid-parent verdict, got {:?}", v),
            }
            assert_eq!(judgement.gfid, SELF_ID);
        }
        ParentStep::NeedLink { .. } => {
            panic!("a malformed parent identifier must not cost a link read")
        }
    }
}

#[test]
fn resolved_parent_gives_expected_target() {
    let step = audit_parent(
        SELF_ID.to_string(),
        "lp".to_string(),
        "d1",
        Some(vec![0x22; 16]),
    );
    match step {
        ParentStep::NeedLink { gfid, pgfid, link_path, expected } => {
            assert_eq!(gfid, SELF_ID);
            assert_eq!(pgfid, PARENT_ID);
            assert_eq!(link_path, "lp");
            assert_eq!(expected, GOOD_TARGET);
        }
        ParentStep::Judged { judgement } => {
            panic!("a well-formed parent was judged {:?}", judgement.verdict)
        }
    }
}

#[test]
fn missing_link_is_no_symlink_with_both_identifiers() {
    let j = audit_link(SELF_ID.to_string(), PARENT_ID.to_string(), GOOD_TARGET, None);
    assert_eq!(j.verdict.kind(), VerdictKind::NoSymlink);
    assert_eq!(j.gfid, SELF_ID);
    assert_eq!(j.pgfid, PARENT_ID);
}

#[test]
fn wrong_target_is_wrong_symlink_with_both_identifiers() {
    let stray = "../../22/22/22222222-2222-2222-2222-222222222222";
    let j = audit_link(
        SELF_ID.to_string(),
        PARENT_ID.to_string(),
        GOOD_TARGET,
        Some(stray.to_string()),
    );
    match &j.verdict {
        Verdict::WrongSymlink { actual } => assert_eq!(actual, stray),
        v => panic!("expected a wrong-symlink verdict, got {:?}", v),
    }
    assert_eq!(j.gfid, SELF_ID);
    assert_eq!(j.pgfid, PARENT_ID);
}

#[test]
fn matching_target_is_okay() {
    let j = audit_link(
        SELF_ID.to_string(),
        PARENT_ID.to_string(),
        GOOD_TARGET,
        Some(GOOD_TARGET.to_string()),
    );
    assert_eq!(j.verdict.kind(), VerdictKind::Okay);
    assert_eq!(j.gfid, SELF_ID);
    assert_eq!(j.pgfid, PARENT_ID);
}

#[test]
fn consistent_directory_judged_okay_end_to_end() {
    let j = judge_entry(
        "/b",
        "d1",
        Some(vec![0x11; 16]),
        Some(vec![0x22; 16]),
        Some(GOOD_TARGET.to_string()),
    );
    assert_eq!(j.verdict.kind(), VerdictKind::Okay);
    assert_eq!(j.gfid, SELF_ID);
    assert_eq!(j.pgfid, PARENT_ID);
}

#[test]
fn scenario_tree_judges_only_the_subdirectory() {
    let entries = vec![
        entry("/b", "b", true, None, None, None),
        entry(
            "/b/d1",
            "d1",
            true,
            Some(vec![0x11; 16]),
            Some(vec![0x22; 16]),
            Some(GOOD_TARGET),
        ),
    ];
    let reports = audit_entries("/b", entries);
    assert_eq!(reports.len(), 1);
    assert_eq!(reports[0].path, "/b/d1");
    assert_eq!(reports[0].judgement.verdict.kind(), VerdictKind::Okay);
    assert_eq!(reports[0].judgement.gfid, SELF_ID);
    assert_eq!(reports[0].judgement.pgfid, PARENT_ID);
}

#[test]
fn reserved_subtrees_never_appear_in_the_reports() {
    let entries = vec![
        entry("/b", "b", true, None, None, None),
        entry("/b/.glusterfs", ".glusterfs", true, None, None, None),
        entry("/b/.trashcan", ".trashcan", true, Some(vec![1, 2]), None, None),
        entry("/b/.shard-meta", ".shard-meta", true, None, None, None),
        entry(
            "/b/d1",
            "d1",
            true,
            Some(vec![0x11; 16]),
            Some(vec![0x22; 16]),
            Some(GOOD_TARGET),
        ),
    ];
    let reports = audit_entries("/b", entries);
    assert_eq!(reports.len(), 1);
    assert_eq!(reports[0].path, "/b/d1");
}

#[test]
fn files_are_skipped_without_a_verdict() {
    let entries = vec![
        entry("/b", "b", true, None, None, None),
        entry("/b/file.txt", "file.txt", false, None, None, None),
        entry("/b/d2", "d2", true, None, None, None),
    ];
    let reports = audit_entries("/b", entries);
    assert_eq!(reports.len(), 1);
    assert_eq!(reports[0].path, "/b/d2");
    assert_eq!(reports[0].judgement.verdict.kind(), VerdictKind::NoGfid);
}

fn mixed_tree() -> Vec<ObservedEntry> {
    vec![
        entry("/b", "b", true, None, None, None),
        entry(
            "/b/good",
            "good",
            true,
            Some(vec![0x11; 16]),
            Some(vec![0x22; 16]),
            Some("../../22/22/22222222-2222-2222-2222-222222222222/good"),
        ),
        entry("/b/no-id", "no-id", true, None, None, None),
        entry("/b/bad-id", "bad-id", true, Some(vec![9, 9, 9]), None, None),
        entry("/b/no-link", "no-link", true, Some(vec![0x11; 16]), Some(vec![0x22; 16]), None),
        entry(
            "/b/wrong",
            "wrong",
            true,
            Some(vec![0x11; 16]),
            Some(vec![0x22; 16]),
            Some("../../22/22/22222222-2222-2222-2222-222222222222"),
        ),
        entry("/b/.glusterfs", ".glusterfs", true, None, None, None),
    ]
}

fn lines(reports: &[Report]) -> Vec<String> {
    reports
        .iter()
        .map(|r| report_line(&r.judgement, &r.path))
        .collect()
}

#[test]
fn verdicts_follow_walk_order() {
    let reports = audit_entries("/b", mixed_tree());
    let kinds: Vec<VerdictKind> = reports
        .iter()
        .map(|r| r.judgement.verdict.kind())
        .collect();
    assert_eq!(
        kinds,
        vec![
            VerdictKind::Okay,
            VerdictKind::NoGfid,
            VerdictKind::InvalidGfid,
            VerdictKind::NoSymlink,
            VerdictKind::WrongSymlink,
        ]
    );
}

#[test]
fn auditing_twice_yields_identical_reports() {
    let first = audit_entries("/b", mixed_tree());
    let second = audit_entries("/b", mixed_tree());
    assert_eq!(lines(&first), lines(&second));
}
