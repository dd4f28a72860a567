//! References that leave a knowledge base, and the errors that refuse an export for them.
//!
//! A foreign key knows an identifier and not a knowledge base, so a row can refer to a row of
//! another one. Such a reference must not get an IRI of this knowledge base, and it must not be
//! left out either: the whole export is refused.
use crate::text::{int_text, join3, signed_text, str_eq};
use crate::uuid::Uuid;
use vstd::prelude::*;
use vstd::string::*;

verus! {

/// A kind of reference that leaves the knowledge base, and how many rows have it.
#[derive(Debug)]
pub struct CrossKbViolation {
    pub edge: String,
    pub rows: i64,
}

/// What a violation is.
#[verifier::ext_equal]
pub struct ViolationView {
    pub edge: Seq<char>,
    pub rows: int,
}

impl View for CrossKbViolation {
    type V = ViolationView;

    open spec fn view(&self) -> ViolationView {
        ViolationView { edge: self.edge@, rows: self.rows as int }
    }
}

/// What a list of violations is.
pub open spec fn views(violations: Seq<CrossKbViolation>) -> Seq<ViolationView> {
    violations.map_values(|v: CrossKbViolation| v@)
}

/// An error of the store, with a code for programs, a message for people and the details.
#[derive(Debug)]
pub struct AppError {
    pub code: &'static str,
    pub message: &'static str,
    pub detail: String,
}

/// What an error is.
#[verifier::ext_equal]
pub struct ErrorView {
    pub code: Seq<char>,
    pub message: Seq<char>,
    pub detail: Seq<char>,
}

impl View for AppError {
    type V = ErrorView;

    open spec fn view(&self) -> ErrorView {
        ErrorView { code: self.code@, message: self.message@, detail: self.detail@ }
    }
}

/// A violation in words.
pub open spec fn violation_text(v: ViolationView) -> Seq<char> {
    (v.edge + ": "@ + int_text(v.rows)) + " row(s)"@
}

/// Violations in words, one behind the other.
pub open spec fn violations_text(vs: Seq<ViolationView>) -> Seq<char>
    decreases vs.len(),
{
    if vs.len() == 0 {
        Seq::empty()
    } else if vs.len() == 1 {
        violation_text(vs[0])
    } else {
        violations_text(vs.drop_last()) + "; "@ + violation_text(vs.last())
    }
}

/// The error for references to rows of another knowledge base, or to no row.
pub open spec fn cross_kb(vs: Seq<ViolationView>) -> ErrorView {
    ErrorView {
        code: "cross_kb_provenance"@,
        message: "export refused: KB-scoped provenance points outside the knowledge base"@,
        detail: violations_text(vs),
    }
}

/// The error for references to rows of this knowledge base that are not exported.
pub open spec fn unexported_target(vs: Seq<ViolationView>) -> ErrorView {
    ErrorView {
        code: "unexported_target"@,
        message:
            "export refused: a reference points at a row that is not in this KB's exported set"@,
        detail: violations_text(vs),
    }
}

/// What becomes of an export with these violations: those that leave the knowledge base come
/// first.
pub open spec fn verdict(
    foreign: Seq<ViolationView>,
    unexported: Seq<ViolationView>,
) -> Option<ErrorView> {
    if foreign.len() > 0 {
        Some(cross_kb(foreign))
    } else if unexported.len() > 0 {
        Some(unexported_target(unexported))
    } else {
        None
    }
}

fn one_in_words(v: &CrossKbViolation) -> (out: String)
    ensures
        out@ == violation_text(v@),
{
    join3(v.edge.as_str(), ": ", signed_text(v.rows).as_str()).concat(" row(s)")
}

fn in_words(violations: &Vec<CrossKbViolation>) -> (out: String)
    ensures
        out@ == violations_text(views(violations@)),
{
    let ghost vs = views(violations@);
    let mut out: String = String::new();
    let mut i: usize = 0;
    proof {
        assert(vs.take(0) =~= Seq::empty());
    }
    while i < violations.len()
        invariant
            i <= violations@.len(),
            vs == views(violations@),
            out@ == violations_text(vs.take(i as int)),
        decreases violations@.len() - i,
    {
        let one: String = one_in_words(&violations[i]);
        proof {
            assert(vs.take(i + 1).drop_last() =~= vs.take(i as int));
            assert(vs.take(i + 1).last() == violations@[i as int]@);
        }
        out = if i == 0 {
            one
        } else {
            join3(out.as_str(), "; ", one.as_str())
        };
        i += 1;
    }
    proof {
        assert(vs.take(i as int) =~= vs);
    }
    out
}

/// The error for references to rows of another knowledge base, or to no row.
pub fn cross_kb_error(violations: &Vec<CrossKbViolation>) -> (e: AppError)
    ensures
        e@ == cross_kb(views(violations@)),
{
    AppError {
        code: "cross_kb_provenance",
        message: "export refused: KB-scoped provenance points outside the knowledge base",
        detail: in_words(violations),
    }
}

/// The error for references to rows of this knowledge base that are not exported.
pub fn unexported_error(violations: &Vec<CrossKbViolation>) -> (e: AppError)
    ensures
        e@ == unexported_target(views(violations@)),
{
    AppError {
        code: "unexported_target",
        message: "export refused: a reference points at a row that is not in this KB's exported set",
        detail: in_words(violations),
    }
}

/// The violations so far, and one more if any rows have it.
pub open spec fn noted(vs: Seq<ViolationView>, edge: Seq<char>, rows: int) -> Seq<ViolationView> {
    if rows > 0 {
        vs.push(ViolationView { edge, rows })
    } else {
        vs
    }
}

/// The violations so far, and one more if this row has it.
pub open spec fn noted_if(
    vs: Seq<ViolationView>,
    edge: Seq<char>,
    bad: bool,
) -> Seq<ViolationView> {
    noted(
        vs,
        edge,
        if bad {
            1
        } else {
            0
        },
    )
}

/// Notes a violation, if any rows have it.
pub fn tally(violations: &mut Vec<CrossKbViolation>, edge: &str, rows: i64)
    ensures
        views(final(violations)@) == noted(views(old(violations)@), edge@, rows as int),
{
    if rows > 0 {
        violations.push(CrossKbViolation { edge: edge.to_string(), rows });
        proof {
            assert(views(violations@) =~= noted(views(old(violations)@), edge@, rows as int));
        }
    }
}

/// Notes a violation, if this row has it.
pub fn tally_if(violations: &mut Vec<CrossKbViolation>, edge: &str, bad: bool)
    ensures
        views(final(violations)@) == noted_if(views(old(violations)@), edge@, bad),
{
    tally(
        violations,
        edge,
        if bad {
            1
        } else {
            0
        },
    );
}

/// A reference leaves the knowledge base: its row belongs to another one, or is not there.
pub open spec fn leaves(ref_kb: Option<Uuid>, kb_id: Uuid) -> bool {
    ref_kb != Some(kb_id)
}

/// Whether a reference leaves the knowledge base.
pub fn foreign(ref_kb: Option<Uuid>, kb_id: Uuid) -> (b: bool)
    ensures
        b == leaves(ref_kb, kb_id),
{
    match ref_kb {
        Some(kb) => kb != kb_id,
        None => true,
    }
}

/// Turns violations into the error that they call for.
pub fn judge(
    foreign: &Vec<CrossKbViolation>,
    unexported: &Vec<CrossKbViolation>,
) -> (r: Result<(), AppError>)
    ensures
        match r {
            Ok(_) => verdict(views(foreign@), views(unexported@)) is None,
            Err(e) => verdict(views(foreign@), views(unexported@)) == Some(e@),
        },
{
    if foreign.len() > 0 {
        return Err(cross_kb_error(foreign));
    }
    if unexported.len() > 0 {
        return Err(unexported_error(unexported));
    }
    Ok(())
}

/// A line of the scan of a whole knowledge base.
#[derive(Debug)]
pub struct ScanViolation {
    pub edge: String,
    /// `cross_kb` or `unexported`.
    pub kind: String,
    pub rows: i64,
}

/// The lines of a scan that are of this kind.
pub open spec fn of_kind(scan: Seq<ScanViolation>, kind: Seq<char>) -> Seq<ViolationView>
    decreases scan.len(),
{
    if scan.len() == 0 {
        Seq::empty()
    } else {
        let before = of_kind(scan.drop_last(), kind);
        if scan.last().kind@ == kind {
            before.push(ViolationView { edge: scan.last().edge@, rows: scan.last().rows as int })
        } else {
            before
        }
    }
}

fn pick(scan: &Vec<ScanViolation>, kind: &str) -> (out: Vec<CrossKbViolation>)
    ensures
        views(out@) == of_kind(scan@, kind@),
{
    let mut out: Vec<CrossKbViolation> = Vec::new();
    let mut i: usize = 0;
    proof {
        assert(views(out@) =~= Seq::empty());
    }
    while i < scan.len()
        invariant
            i <= scan@.len(),
            views(out@) == of_kind(scan@.take(i as int), kind@),
        decreases scan@.len() - i,
    {
        let ghost before = out@;
        proof {
            assert(scan@.take(i + 1).drop_last() =~= scan@.take(i as int));
        }
        if str_eq(scan[i].kind.as_str(), kind) {
            out.push(CrossKbViolation { edge: scan[i].edge.clone(), rows: scan[i].rows });
            proof {
                assert(views(out@) =~= views(before).push(out@.last()@));
            }
        }
        i += 1;
    }
    proof {
        assert(scan@.take(i as int) =~= scan@);
    }
    out
}

/// Judges the scan of a knowledge base that goes before an export.
pub fn provenance_integrity(scan: &Vec<ScanViolation>) -> (r: Result<(), AppError>)
    ensures
        match r {
            Ok(_) => verdict(of_kind(scan@, "cross_kb"@), of_kind(scan@, "unexported"@)) is None,
            Err(e) => verdict(of_kind(scan@, "cross_kb"@), of_kind(scan@, "unexported"@)) == Some(e@),
        },
{
    let foreign: Vec<CrossKbViolation> = pick(scan, "cross_kb");
    let unexported: Vec<CrossKbViolation> = pick(scan, "unexported");
    judge(&foreign, &unexported)
}

} // verus!
