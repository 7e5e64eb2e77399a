//! The closed set of seven per-directory verdicts, and the operator
//! report lines built from them.

use vstd::prelude::*;

use crate::text::pad_right;
use crate::text::pad_spec;

verus! {

/// The seven kinds of verdict a judged directory can receive.
#[derive(Clone, Copy, Debug, PartialEq, Eq, Structural)]
pub enum VerdictKind {
    Okay,
    NoGfid,
    InvalidGfid,
    NoPgfid,
    InvalidPGfid,
    NoSymlink,
    WrongSymlink,
}

/// A verdict, carrying the offending raw value where one exists: the
/// malformed attribute bytes, or the stray target a wrong symlink held.
#[derive(Debug)]
pub enum Verdict {
    Okay,
    NoGfid,
    InvalidGfid { raw: Vec<u8> },
    NoPgfid,
    InvalidPGfid { raw: Vec<u8> },
    NoSymlink,
    WrongSymlink { actual: String },
}

/// The kind of a verdict, with any attached value stripped.
pub open spec fn kind_of(v: Verdict) -> VerdictKind {
    match v {
        Verdict::Okay => VerdictKind::Okay,
        Verdict::NoGfid => VerdictKind::NoGfid,
        Verdict::InvalidGfid { .. } => VerdictKind::InvalidGfid,
        Verdict::NoPgfid => VerdictKind::NoPgfid,
        Verdict::InvalidPGfid { .. } => VerdictKind::InvalidPGfid,
        Verdict::NoSymlink => VerdictKind::NoSymlink,
        Verdict::WrongSymlink { .. } => VerdictKind::WrongSymlink,
    }
}

/// The fixed status-and-reason column shown for each kind of verdict.
pub open spec fn label_spec(k: VerdictKind) -> Seq<char> {
    match k {
        VerdictKind::Okay => "[    OK]              "@,
        VerdictKind::NoGfid => "[NOT OK] NO GFID      "@,
        VerdictKind::NoPgfid => "[NOT OK] NO PGFID     "@,
        VerdictKind::NoSymlink => "[NOT OK] NO SYMLINK   "@,
        VerdictKind::WrongSymlink => "[NOT OK] WRONG SYMLINK"@,
        VerdictKind::InvalidGfid => "[NOT OK] INVALID GFID "@,
        VerdictKind::InvalidPGfid => "[NOT OK] INVALID PGFID"@,
    }
}

impl Verdict {
    /// The kind of this verdict.
    pub fn kind(&self) -> (k: VerdictKind)
        ensures
            k == kind_of(*self),
    {
        match self {
            Verdict::Okay => VerdictKind::Okay,
            Verdict::NoGfid => VerdictKind::NoGfid,
            Verdict::InvalidGfid { .. } => VerdictKind::InvalidGfid,
            Verdict::NoPgfid => VerdictKind::NoPgfid,
            Verdict::InvalidPGfid { .. } => VerdictKind::InvalidPGfid,
            Verdict::NoSymlink => VerdictKind::NoSymlink,
            Verdict::WrongSymlink { .. } => VerdictKind::WrongSymlink,
        }
    }

    /// The status-and-reason column for this verdict.
    pub fn label(&self) -> (r: String)
        ensures
            r@ == label_spec(kind_of(*self)),
    {
        let s: &str = match self {
            Verdict::Okay => "[    OK]              ",
            Verdict::NoGfid => "[NOT OK] NO GFID      ",
            Verdict::NoPgfid => "[NOT OK] NO PGFID     ",
            Verdict::NoSymlink => "[NOT OK] NO SYMLINK   ",
            Verdict::WrongSymlink { .. } => "[NOT OK] WRONG SYMLINK",
            Verdict::InvalidGfid { .. } => "[NOT OK] INVALID GFID ",
            Verdict::InvalidPGfid { .. } => "[NOT OK] INVALID PGFID",
        };
        s.to_owned()
    }
}

/// The judgement of one directory: its verdict together with the
/// identifier columns of the report, each left blank where the audit
/// stopped before resolving it.
#[derive(Debug)]
pub struct Judgement {
    pub verdict: Verdict,
    pub gfid: String,
    pub pgfid: String,
}

/// One report line: the status column, the two identifier columns each
/// padded to 36 characters, and the directory's path.
pub open spec fn report_line_spec(k: VerdictKind, gfid: Seq<char>, pgfid: Seq<char>, path: Seq<char>) -> Seq<char> {
    label_spec(k) + " "@ + pad_spec(gfid, 36) + " "@ + pad_spec(pgfid, 36) + " "@ + path
}

/// Formats the report line for one judged directory.
pub fn report_line(j: &Judgement, path: &str) -> (r: String)
    ensures
        r@ == report_line_spec(kind_of(j.verdict), j.gfid@, j.pgfid@, path@),
{
    let mut out = j.verdict.label();
    out.append(" ");
    let g = pad_right(j.gfid.as_str(), 36);
    out.append(g.as_str());
    out.append(" ");
    let p = pad_right(j.pgfid.as_str(), 36);
    out.append(p.as_str());
    out.append(" ");
    out.append(path);
    proof {
        assert(out@ =~= report_line_spec(kind_of(j.verdict), j.gfid@, j.pgfid@, path@));
    }
    out
}

/// The two header lines of the report, joined by a newline.
pub fn report_header() -> (r: String)
    ensures
        r@ == "STATUS   DESCRIPTION   "@ + pad_spec("GFID"@, 36) + " "@ + pad_spec("PGFID"@, 36)
            + " PATH\n"@ + "-------- ------------- ------------------------------------ ------------------------------------ ---------------------"@,
{
    let mut out = String::new();
    out.append("STATUS   DESCRIPTION   ");
    let g = pad_right("GFID", 36);
    out.append(g.as_str());
    out.append(" ");
    let p = pad_right("PGFID", 36);
    out.append(p.as_str());
    out.append(" PATH\n");
    out.append(
        "-------- ------------- ------------------------------------ ------------------------------------ ---------------------",
    );
    proof {
        assert(out@ =~= "STATUS   DESCRIPTION   "@ + pad_spec("GFID"@, 36) + " "@ + pad_spec(
            "PGFID"@,
            36,
        ) + " PATH\n"@
            + "-------- ------------- ------------------------------------ ------------------------------------ ---------------------"@);
    }
    out
}

} // verus!
