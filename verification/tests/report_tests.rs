use brick_audit::verdict::report_header;
use brick_audit::verdict::report_line;
use brick_audit::verdict::Judgement;
use brick_audit::verdict::Verdict;
use brick_audit::verdict::VerdictKind;

#[test]
fn labels_are_the_fixed_status_columns() {
    assert_eq!(Verdict::Okay.label(), "[    OK]              ");
    assert_eq!(Verdict::NoGfid.label(), "[NOT OK] NO GFID      ");
    assert_eq!(Verdict::NoPgfid.label(), "[NOT OK] NO PGFID     ");
    assert_eq!(Verdict::NoSymlink.label(), "[NOT OK] NO SYMLINK   ");
    assert_eq!(
        Verdict::WrongSymlink { actual: String::new() }.label(),
        "[NOT OK] WRONG SYMLINK"
    );
    assert_eq!(
        Verdict::InvalidGfid { raw: Vec::new() }.label(),
        "[NOT OK] INVALID GFID "
    );
    assert_eq!(
        Verdict::InvalidPGfid { raw: Vec::new() }.label(),
        "[NOT OK] INVALID PGFID"
    );
}

#[test]
fn kinds_strip_attached_values() {
    assert_eq!(Verdict::Okay.kind(), VerdictKind::Okay);
    assert_eq!(
        Verdict::InvalidGfid { raw: vec![1, 2] }.kind(),
        VerdictKind::InvalidGfid
    );
    assert_eq!(
        Verdict::WrongSymlink { actual: "x".to_string() }.kind(),
        VerdictKind::WrongSymlink
    );
}

#[test]
fn report_line_pads_identifier_columns() {
    let j = Judgement {
        verdict: Verdict::Okay,
        gfid: "11111111-1111-1111-1111-111111111111".to_string(),
        pgfid: "22222222-2222-2222-2222-222222222222".to_string(),
    };
    let line = report_line(&j, "/b/d1");
    assert_eq!(
        line,
        "[    OK]               11111111-1111-1111-1111-111111111111 22222222-2222-2222-2222-222222222222 /b/d1"
    );
}

#[test]
fn report_line_leaves_unresolved_columns_blank() {
    let j = Judgement {
        verdict: Verdict::NoGfid,
        gfid: String::new(),
        pgfid: String::new(),
    };
    let line = report_line(&j, "/b/d2");
    assert_eq!(
        line,
        format!(
            "[NOT OK] NO GFID       {:36} {:36} /b/d2",
            "", ""
        )
    );
}

#[test]
fn header_names_the_columns() {
    let header = report_header();
    let expected = format!(
        "STATUS   DESCRIPTION   {:36} {:36} PATH\n\
         -------- ------------- ------------------------------------ \
         ------------------------------------ ---------------------",
        "GFID", "PGFID"
    );
    assert_eq!(header, expected);
}
