//! The tree auditor: per-directory classification against the brick's
//! linking convention, and the batch judgement of a walked tree.
//!
//! Each directory is judged through at most three observations — its
//! own attribute bytes, its parent's attribute bytes, and the target of
//! the symlink at its hash-index path.  The audit is terminal on the
//! first failure: a step that yields a judgement asks for no further
//! observation, so a directory without an identifier costs no parent
//! lookup and no link inspection.

use vstd::prelude::*;

use crate::identifier::hyphenated_form;
use crate::identifier::lemma_hyphenated_is_identifier;
use crate::identifier::resolve_identifier;
use crate::identifier::IdResolution;
use crate::paths::expected_link_target;
use crate::paths::expected_target_spec;
use crate::paths::hash_index_path;
use crate::paths::index_path_spec;
use crate::text::has_prefix;
use crate::text::starts_with_spec;
use crate::text::str_eq;
use crate::verdict::kind_of;
use crate::verdict::Judgement;
use crate::verdict::Verdict;
use crate::verdict::VerdictKind;

verus! {

/// A directory name that opens an internal bookkeeping subtree: the
/// hash index, the reclamation area, or sharding metadata.  Such
/// subtrees are pruned from the audit entirely.
pub open spec fn is_reserved_spec(name: Seq<char>) -> bool {
    ||| starts_with_spec(name, ".glusterfs"@)
    ||| starts_with_spec(name, ".trashcan"@)
    ||| starts_with_spec(name, ".shard"@)
}

/// Whether a directory name opens a reserved bookkeeping subtree.
pub fn is_reserved_name(name: &str) -> (r: bool)
    ensures
        r == is_reserved_spec(name@),
{
    has_prefix(name, ".glusterfs") || has_prefix(name, ".trashcan") || has_prefix(name, ".shard")
}

/// The view of an attribute read: the bytes where the attribute was
/// present and readable.
pub open spec fn attr_view(a: Option<Vec<u8>>) -> Option<Seq<u8>> {
    match a {
        Option::None => Option::None,
        Option::Some(v) => Option::Some(v@),
    }
}

/// The view of a symlink read: the target where one was readable.
pub open spec fn target_view(t: Option<String>) -> Option<Seq<char>> {
    match t {
        Option::None => Option::None,
        Option::Some(s) => Option::Some(s@),
    }
}

/// The verdict a directory receives from the three observations made
/// of it: its own attribute bytes, its parent's attribute bytes, and
/// the target of the symlink at its hash-index path.  Terminal on the
/// first failure, in the order self, parent, link.
pub open spec fn verdict_kind_spec(
    self_attr: Option<Seq<u8>>,
    parent_attr: Option<Seq<u8>>,
    link: Option<Seq<char>>,
    name: Seq<char>,
) -> VerdictKind {
    match self_attr {
        Option::None => VerdictKind::NoGfid,
        Option::Some(sa) => if sa.len() != 16 {
            VerdictKind::InvalidGfid
        } else {
            match parent_attr {
                Option::None => VerdictKind::NoPgfid,
                Option::Some(pa) => if pa.len() != 16 {
                    VerdictKind::InvalidPGfid
                } else {
                    match link {
                        Option::None => VerdictKind::NoSymlink,
                        Option::Some(t) => if t == expected_target_spec(
                            hyphenated_form(pa),
                            name,
                        ) {
                            VerdictKind::Okay
                        } else {
                            VerdictKind::WrongSymlink
                        },
                    }
                },
            }
        },
    }
}

/// A directory with a present, well-formed identifier, a present,
/// well-formed parent identifier, and a hash-index symlink holding
/// exactly the expected target is judged `Okay`.
pub proof fn lemma_consistent_directory_is_okay(sa: Seq<u8>, pa: Seq<u8>, name: Seq<char>)
    requires
        sa.len() == 16,
        pa.len() == 16,
    ensures
        verdict_kind_spec(
            Option::Some(sa),
            Option::Some(pa),
            Option::Some(expected_target_spec(hyphenated_form(pa), name)),
            name,
        ) == VerdictKind::Okay,
{
}

/// A directory whose identifier attribute is absent is judged
/// `NoGfid`, whatever the other observations hold: neither the parent
/// lookup nor the link inspection can change the verdict, so neither
/// needs to be made.
pub proof fn lemma_missing_identifier_is_no_gfid(
    parent_attr: Option<Seq<u8>>,
    link: Option<Seq<char>>,
    name: Seq<char>,
)
    ensures
        verdict_kind_spec(Option::None, parent_attr, link, name) == VerdictKind::NoGfid,
{
}

/// A directory whose identifier attribute is present but not a valid
/// 16-byte identifier is judged `InvalidGfid`, whatever the other
/// observations hold.
pub proof fn lemma_malformed_identifier_is_invalid_gfid(
    sa: Seq<u8>,
    parent_attr: Option<Seq<u8>>,
    link: Option<Seq<char>>,
    name: Seq<char>,
)
    requires
        sa.len() != 16,
    ensures
        verdict_kind_spec(Option::Some(sa), parent_attr, link, name) == VerdictKind::InvalidGfid,
{
}

/// A directory with both identifiers resolved whose hash-index symlink
/// holds any target other than the expected one is judged
/// `WrongSymlink`.
pub proof fn lemma_wrong_target_is_wrong_symlink(
    sa: Seq<u8>,
    pa: Seq<u8>,
    t: Seq<char>,
    name: Seq<char>,
)
    requires
        sa.len() == 16,
        pa.len() == 16,
        t != expected_target_spec(hyphenated_form(pa), name),
    ensures
        verdict_kind_spec(Option::Some(sa), Option::Some(pa), Option::Some(t), name)
            == VerdictKind::WrongSymlink,
{
}

/// A directory with both identifiers resolved but no readable symlink
/// at its hash-index path is judged `NoSymlink`.
pub proof fn lemma_missing_link_is_no_symlink(sa: Seq<u8>, pa: Seq<u8>, name: Seq<char>)
    requires
        sa.len() == 16,
        pa.len() == 16,
    ensures
        verdict_kind_spec(Option::Some(sa), Option::Some(pa), Option::None, name)
            == VerdictKind::NoSymlink,
{
}

/// The identifier column of the report: the directory's own identifier
/// where it resolved, blank otherwise.
pub open spec fn gfid_column_spec(self_attr: Option<Seq<u8>>) -> Seq<char> {
    match self_attr {
        Option::Some(sa) => if sa.len() == 16 {
            hyphenated_form(sa)
        } else {
            Seq::<char>::empty()
        },
        Option::None => Seq::<char>::empty(),
    }
}

/// The parent-identifier column of the report: populated only once
/// both identifiers resolved.
pub open spec fn pgfid_column_spec(
    self_attr: Option<Seq<u8>>,
    parent_attr: Option<Seq<u8>>,
) -> Seq<char> {
    if gfid_column_spec(self_attr).len() == 0 {
        Seq::<char>::empty()
    } else {
        match parent_attr {
            Option::Some(pa) => if pa.len() == 16 {
                hyphenated_form(pa)
            } else {
                Seq::<char>::empty()
            },
            Option::None => Seq::<char>::empty(),
        }
    }
}

/// The outcome of judging a directory's own attribute: either a
/// terminal judgement, or the resolved identifier together with the
/// hash-index path whose symlink must be read later.
pub enum SelfStep {
    Judged { judgement: Judgement },
    NeedParent { gfid: String, link_path: String },
}

/// The outcome of judging the parent's attribute: either a terminal
/// judgement, or everything the link inspection needs — both resolved
/// identifiers, the hash-index path to read, and the target the link
/// is expected to hold.
pub enum ParentStep {
    Judged { judgement: Judgement },
    NeedLink { gfid: String, pgfid: String, link_path: String, expected: String },
}

/// Judges a directory's own attribute bytes.  An absent attribute is
/// terminal with `NoGfid`, a malformed one with `InvalidGfid`; a
/// well-formed one resolves the identifier and derives the hash-index
/// path to inspect, so that no parent lookup or link inspection is
/// spent on a directory without a valid identifier.
pub fn audit_self(root: &str, attr: Option<Vec<u8>>) -> (r: SelfStep)
    ensures
        match attr {
            Option::None => r matches SelfStep::Judged { judgement }
                && judgement.verdict matches Verdict::NoGfid
                && judgement.gfid@ == Seq::<char>::empty()
                && judgement.pgfid@ == Seq::<char>::empty(),
            Option::Some(v) => if v@.len() == 16 {
                r matches SelfStep::NeedParent { gfid, link_path }
                    && gfid@ == hyphenated_form(v@)
                    && link_path@ == index_path_spec(root@, hyphenated_form(v@))
            } else {
                r matches SelfStep::Judged { judgement }
                    && judgement.verdict matches Verdict::InvalidGfid { raw } && raw@ == v@
                    && judgement.gfid@ == Seq::<char>::empty()
                    && judgement.pgfid@ == Seq::<char>::empty()
            },
        },
{
    let ghost attr0 = attr;
    match resolve_identifier(attr) {
        IdResolution::Missing => SelfStep::Judged {
            judgement: Judgement {
                verdict: Verdict::NoGfid,
                gfid: String::new(),
                pgfid: String::new(),
            },
        },
        IdResolution::Malformed { raw } => SelfStep::Judged {
            judgement: Judgement {
                verdict: Verdict::InvalidGfid { raw },
                gfid: String::new(),
                pgfid: String::new(),
            },
        },
        IdResolution::Resolved { id } => {
            proof {
                lemma_hyphenated_is_identifier(attr0->Some_0@);
            }
            let link_path = hash_index_path(root, id.as_str());
            SelfStep::NeedParent { gfid: id, link_path }
        },
    }
}

/// Judges the parent's attribute bytes for a directory whose own
/// identifier already resolved.  An absent attribute is terminal with
/// `NoPgfid`, a malformed one with `InvalidPGfid`; a well-formed one
/// resolves the parent identifier and derives the target the
/// hash-index symlink is expected to hold.
pub fn audit_parent(gfid: String, link_path: String, name: &str, attr: Option<Vec<u8>>) -> (r:
    ParentStep)
    ensures
        match attr {
            Option::None => r matches ParentStep::Judged { judgement }
                && judgement.verdict matches Verdict::NoPgfid
                && judgement.gfid@ == gfid@
                && judgement.pgfid@ == Seq::<char>::empty(),
            Option::Some(v) => if v@.len() == 16 {
                r matches ParentStep::NeedLink { gfid: g, pgfid, link_path: lp, expected }
                    && g@ == gfid@
                    && pgfid@ == hyphenated_form(v@)
                    && lp@ == link_path@
                    && expected@ == expected_target_spec(hyphenated_form(v@), name@)
            } else {
                r matches ParentStep::Judged { judgement }
                    && judgement.verdict matches Verdict::InvalidPGfid { raw } && raw@ == v@
                    && judgement.gfid@ == gfid@
                    && judgement.pgfid@ == Seq::<char>::empty()
            },
        },
{
    let ghost attr0 = attr;
    match resolve_identifier(attr) {
        IdResolution::Missing => ParentStep::Judged {
            judgement: Judgement { verdict: Verdict::NoPgfid, gfid, pgfid: String::new() },
        },
        IdResolution::Malformed { raw } => ParentStep::Judged {
            judgement: Judgement {
                verdict: Verdict::InvalidPGfid { raw },
                gfid,
                pgfid: String::new(),
            },
        },
        IdResolution::Resolved { id } => {
            proof {
                lemma_hyphenated_is_identifier(attr0->Some_0@);
            }
            let expected = expected_link_target(id.as_str(), name);
            ParentStep::NeedLink { gfid, pgfid: id, link_path, expected }
        },
    }
}

/// Judges the link inspection for a directory whose two identifiers
/// resolved: no readable symlink at the hash-index path is `NoSymlink`,
/// a target other than the expected one is `WrongSymlink` and is kept
/// verbatim, and the exact expected target is `Okay`.  Both identifier
/// columns stay populated whatever the outcome.
pub fn audit_link(gfid: String, pgfid: String, expected: &str, actual: Option<String>) -> (j:
    Judgement)
    ensures
        j.gfid@ == gfid@,
        j.pgfid@ == pgfid@,
        match actual {
            Option::None => j.verdict matches Verdict::NoSymlink,
            Option::Some(t) => if t@ == expected@ {
                j.verdict matches Verdict::Okay
            } else {
                j.verdict matches Verdict::WrongSymlink { actual: a } && a@ == t@
            },
        },
{
    match actual {
        Option::None => Judgement { verdict: Verdict::NoSymlink, gfid, pgfid },
        Option::Some(t) => {
            if str_eq(t.as_str(), expected) {
                Judgement { verdict: Verdict::Okay, gfid, pgfid }
            } else {
                Judgement { verdict: Verdict::WrongSymlink { actual: t }, gfid, pgfid }
            }
        },
    }
}

/// Judges one directory from all three observations at once, chaining
/// the three steps with their terminal-on-first-failure order.  The
/// later observations are consulted only where the earlier steps
/// succeeded.
pub fn judge_entry(
    root: &str,
    name: &str,
    self_attr: Option<Vec<u8>>,
    parent_attr: Option<Vec<u8>>,
    link_target: Option<String>,
) -> (j: Judgement)
    ensures
        kind_of(j.verdict) == verdict_kind_spec(
            attr_view(self_attr),
            attr_view(parent_attr),
            target_view(link_target),
            name@,
        ),
        j.gfid@ == gfid_column_spec(attr_view(self_attr)),
        j.pgfid@ == pgfid_column_spec(attr_view(self_attr), attr_view(parent_attr)),
{
    match audit_self(root, self_attr) {
        SelfStep::Judged { judgement } => judgement,
        SelfStep::NeedParent { gfid, link_path } => {
            match audit_parent(gfid, link_path, name, parent_attr) {
                ParentStep::Judged { judgement } => judgement,
                ParentStep::NeedLink { gfid, pgfid, link_path: _, expected } => {
                    audit_link(gfid, pgfid, expected.as_str(), link_target)
                },
            }
        },
    }
}

/// One entry yielded by the tree walk, with the observations made of
/// it.  The walk, the attribute reads and the link read are the
/// caller's; the judgement of the observed values is the library's.
pub struct ObservedEntry {
    pub path: String,
    pub name: String,
    pub is_dir: bool,
    pub self_attr: Option<Vec<u8>>,
    pub parent_attr: Option<Vec<u8>>,
    pub link_target: Option<String>,
}

/// The mathematical view of an observed entry.
pub ghost struct EntryModel {
    pub path: Seq<char>,
    pub name: Seq<char>,
    pub is_dir: bool,
    pub self_attr: Option<Seq<u8>>,
    pub parent_attr: Option<Seq<u8>>,
    pub link_target: Option<Seq<char>>,
}

impl View for ObservedEntry {
    type V = EntryModel;

    open spec fn view(&self) -> EntryModel {
        EntryModel {
            path: self.path@,
            name: self.name@,
            is_dir: self.is_dir,
            self_attr: attr_view(self.self_attr),
            parent_attr: attr_view(self.parent_attr),
            link_target: target_view(self.link_target),
        }
    }
}

/// The judgement of one directory together with its path.
#[derive(Debug)]
pub struct Report {
    pub path: String,
    pub judgement: Judgement,
}

/// The mathematical view of a report: the directory's path, the kind
/// of its verdict, and the two identifier columns.
pub ghost struct ReportModel {
    pub path: Seq<char>,
    pub kind: VerdictKind,
    pub gfid: Seq<char>,
    pub pgfid: Seq<char>,
}

impl View for Report {
    type V = ReportModel;

    open spec fn view(&self) -> ReportModel {
        ReportModel {
            path: self.path@,
            kind: kind_of(self.judgement.verdict),
            gfid: self.judgement.gfid@,
            pgfid: self.judgement.pgfid@,
        }
    }
}

/// The views of a sequence of observed entries.
pub open spec fn entries_view(es: Seq<ObservedEntry>) -> Seq<EntryModel> {
    es.map_values(|e: ObservedEntry| e@)
}

/// The views of a sequence of reports.
pub open spec fn reports_view(rs: Seq<Report>) -> Seq<ReportModel> {
    rs.map_values(|r: Report| r@)
}

/// Whether a walked entry is judged at all: only directories, never
/// the brick root itself, and never an entry whose name opens a
/// reserved bookkeeping subtree.
pub open spec fn should_judge_spec(root: Seq<char>, e: EntryModel) -> bool {
    e.is_dir && e.path != root && !is_reserved_spec(e.name)
}

/// The report one judged entry receives.
pub open spec fn judge_model(e: EntryModel) -> ReportModel {
    ReportModel {
        path: e.path,
        kind: verdict_kind_spec(e.self_attr, e.parent_attr, e.link_target, e.name),
        gfid: gfid_column_spec(e.self_attr),
        pgfid: pgfid_column_spec(e.self_attr, e.parent_attr),
    }
}

/// The reports of a walked tree, in walk order: one per judged entry,
/// skipped entries contributing nothing.
pub open spec fn audit_model(root: Seq<char>, entries: Seq<EntryModel>) -> Seq<ReportModel>
    decreases entries.len(),
{
    if entries.len() == 0 {
        Seq::<ReportModel>::empty()
    } else {
        let rest = audit_model(root, entries.drop_last());
        if should_judge_spec(root, entries.last()) {
            rest.push(judge_model(entries.last()))
        } else {
            rest
        }
    }
}

/// Judges every entry a tree walk yielded, in walk order.  Entries
/// that are not directories, the root itself, and entries with a
/// reserved name are skipped without a verdict; every other entry
/// receives exactly one report.
pub fn audit_entries(root: &str, entries: Vec<ObservedEntry>) -> (r: Vec<Report>)
    ensures
        reports_view(r@) == audit_model(root@, entries_view(entries@)),
{
    let ghost orig = entries@;
    let mut rest = entries;
    let mut out: Vec<Report> = Vec::new();
    proof {
        assert(orig.subrange(0, 0) =~= Seq::<ObservedEntry>::empty());
        assert(entries_view(orig.subrange(0, 0)) =~= Seq::<EntryModel>::empty());
        assert(reports_view(out@) =~= Seq::<ReportModel>::empty());
        assert(rest@ =~= orig.subrange(0, orig.len() as int));
    }
    while rest.len() > 0
        invariant
            rest@.len() <= orig.len(),
            rest@ == orig.subrange(orig.len() - rest@.len(), orig.len() as int),
            reports_view(out@) == audit_model(
                root@,
                entries_view(orig.subrange(0, orig.len() - rest@.len())),
            ),
        decreases rest@.len(),
    {
        let ghost k: int = orig.len() - rest@.len();
        let ghost prefix = orig.subrange(0, k);
        let e = rest.remove(0);
        proof {
            assert(e == orig[k]);
            assert(rest@ =~= orig.subrange(k + 1, orig.len() as int));
            assert(orig.subrange(0, k + 1) =~= prefix.push(e));
            assert(entries_view(prefix.push(e)) =~= entries_view(prefix).push(e@));
            assert(entries_view(prefix.push(e)).drop_last() =~= entries_view(prefix));
        }
        let ObservedEntry { path, name, is_dir, self_attr, parent_attr, link_target } = e;
        let judged = is_dir && !str_eq(path.as_str(), root) && !is_reserved_name(name.as_str());
        if judged {
            let judgement = judge_entry(root, name.as_str(), self_attr, parent_attr, link_target);
            let rep = Report { path, judgement };
            proof {
                assert(rep@ == judge_model(e@));
            }
            out.push(rep);
            proof {
                assert(reports_view(out@) =~= reports_view(out@.drop_last()).push(rep@));
            }
        }
    }
    proof {
        assert(orig.subrange(0, orig.len() as int) =~= orig);
    }
    out
}

/// The audit is a pure function of the observed tree: two runs over
/// the same observations yield the same reports, so an unmodified tree
/// audits identically twice.
pub proof fn lemma_audit_idempotent(
    root: Seq<char>,
    entries: Seq<EntryModel>,
    r1: Seq<ReportModel>,
    r2: Seq<ReportModel>,
)
    requires
        r1 == audit_model(root, entries),
        r2 == audit_model(root, entries),
    ensures
        r1 == r2,
{
}

/// Exactly one report per judged entry, in walk order: the audit is
/// the judgement of precisely those entries that are directories other
/// than the root with an unreserved name, kept in the order the walk
/// yielded them.
pub proof fn lemma_one_report_per_judged_entry(root: Seq<char>, entries: Seq<EntryModel>)
    ensures
        audit_model(root, entries) == entries.filter(
            |e: EntryModel| should_judge_spec(root, e),
        ).map_values(|e: EntryModel| judge_model(e)),
    decreases entries.len(),
{
    let f = |e: EntryModel| should_judge_spec(root, e);
    let m = |e: EntryModel| judge_model(e);
    if entries.len() == 0 {
        assert(entries.filter(f).map_values(m) =~= Seq::<ReportModel>::empty());
    } else {
        lemma_one_report_per_judged_entry(root, entries.drop_last());
        reveal_with_fuel(Seq::filter, 2);
        if f(entries.last()) {
            assert(entries.filter(f) == entries.drop_last().filter(f).push(entries.last()));
            assert(entries.drop_last().filter(f).push(entries.last()).map_values(m)
                =~= entries.drop_last().filter(f).map_values(m).push(m(entries.last())));
        } else {
            assert(entries.filter(f) == entries.drop_last().filter(f));
        }
    }
}

/// A pruned entry contributes nothing: removing an entry whose name
/// opens a reserved bookkeeping subtree leaves the audit unchanged, so
/// such directories never appear in the verdict sequence, however
/// malformed their metadata.
pub proof fn lemma_reserved_entry_contributes_nothing(
    root: Seq<char>,
    entries: Seq<EntryModel>,
    i: int,
)
    requires
        0 <= i < entries.len(),
        is_reserved_spec(entries[i].name),
    ensures
        audit_model(root, entries) == audit_model(root, entries.remove(i)),
    decreases entries.len(),
{
    if i == entries.len() - 1 {
        assert(entries.remove(i) =~= entries.drop_last());
    } else {
        lemma_reserved_entry_contributes_nothing(root, entries.drop_last(), i);
        assert(entries.remove(i).drop_last() =~= entries.drop_last().remove(i));
        assert(entries.remove(i).last() == entries.last());
        assert(entries.remove(i).len() == entries.len() - 1);
    }
}

} // verus!
