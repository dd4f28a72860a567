//! The interval in which a statement holds.
use crate::cells::{emit_literal, emit_mark, emit_text, mark_steps};
use crate::literals::{
    finer_than_day, flag_literal, sub_day, text_literal, world_literal, world_time,
};
use crate::sink::Sink;
use crate::steps::{group_steps, lit, nothing, only_if, wrote, Step};
use crate::term::{schema, schema_iri, utopia, utopia_iri, NamedNode};
use crate::text::{opt_str, str_eq};
use crate::time::DateTime;
use crate::words::lemma_export_word;
use vstd::prelude::*;

verus! {

broadcast use {group_steps, lemma_export_word};

/// One end of the interval in which a statement holds: the time, and its precision where the
/// datatype cannot say it.
pub open spec fn bound_steps(
    stmt: Seq<char>,
    p: Seq<char>,
    precision_p: Seq<char>,
    at: DateTime,
    precision: Option<Seq<char>>,
) -> Seq<Step> {
    lit(stmt, p, world_literal(at, precision)) + only_if(
        finer_than_day(precision),
        lit(stmt, precision_p, text_literal(precision.unwrap_or(Seq::empty()))),
    )
}

/// The interval in which a statement holds. "Ended, on an unknown day" is a state of its own and
/// not "still holds".
#[verifier::opaque]
pub open spec fn validity_steps(
    stmt: Seq<char>,
    from: Option<DateTime>,
    from_precision: Option<Seq<char>>,
    to: Option<DateTime>,
    to_precision: Option<Seq<char>>,
) -> Seq<Step> {
    (match from {
        Some(t) => bound_steps(
            stmt,
            schema_iri("validFrom"@),
            utopia_iri("validFromPrecision"@),
            t,
            from_precision,
        ),
        None => nothing(),
    }) + (match to {
        Some(t) => bound_steps(
            stmt,
            schema_iri("validThrough"@),
            utopia_iri("validThroughPrecision"@),
            t,
            to_precision,
        ),
        None => only_if(
            to_precision == Some("unknown"@),
            lit(stmt, utopia_iri("endedUnknown"@), flag_literal(true)),
        ),
    })
}

fn emit_bound(
    sink: &mut Sink,
    stmt: &NamedNode,
    p: &NamedNode,
    precision_p: &NamedNode,
    at: DateTime,
    precision: Option<&str>,
)
    requires
        old(sink).wf(),
    ensures
        wrote(
            *old(sink),
            *final(sink),
            bound_steps(stmt@, p@, precision_p@, at, opt_str(precision)),
        ),
{
    emit_literal(sink, stmt, p, &world_time(at, precision));
    if let Some(fine) = sub_day(precision) {
        emit_text(sink, stmt, precision_p, fine);
    }
}

/// Writes the interval in which a statement holds.
pub fn emit_validity(
    sink: &mut Sink,
    stmt: &NamedNode,
    from: Option<DateTime>,
    from_precision: Option<&str>,
    to: Option<DateTime>,
    to_precision: Option<&str>,
)
    requires
        old(sink).wf(),
    ensures
        wrote(
            *old(sink),
            *final(sink),
            validity_steps(stmt@, from, opt_str(from_precision), to, opt_str(to_precision)),
        ),
{
    proof {
        reveal(validity_steps);
    }
    if let Some(t) = from {
        emit_bound(
            sink,
            stmt,
            &schema("validFrom"),
            &utopia("validFromPrecision"),
            t,
            from_precision,
        );
    }
    match (to, to_precision) {
        (Some(t), p) => {
            emit_bound(
                sink,
                stmt,
                &schema("validThrough"),
                &utopia("validThroughPrecision"),
                t,
                p,
            );
        },
        (None, Some(p)) => {
            emit_mark(sink, stmt, &utopia("endedUnknown"), str_eq(p, "unknown"));
            proof {
                reveal(mark_steps);
            }
        },
        (None, None) => {},
    }
}

} // verus!
