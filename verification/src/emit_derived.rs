//! Derived facts.
use crate::cells::{
    emit_instant, emit_integer, emit_link, emit_literal, emit_mark, emit_opt_instant,
    emit_relation_ref, inside, inside_if, inside_if_steps, inside_steps, mark_steps, not_foreign,
    not_merged, opt_instant_steps, outside_message, relation_ref_steps, resolved,
    unexported_message, unresolved_message,
};
use crate::emit_fact::{emit_unit, unit_steps};
use crate::emit_validity::{emit_validity, validity_steps};
use crate::literals::{
    confidence, confidence_literal, instant_literal, integer_literal, literal_value, value_literal,
};
use crate::names::Names;
use crate::rows::{ExportDerived, ExportPremise};
use crate::sink::Sink;
use crate::steps::{
    barrier, each, group_steps, lemma_each_stops, lit, nothing, res, stop_if, took, wrote, Refused,
    Step,
};
use crate::term::{prov, prov_iri, rdf, rdf_iri, utopia, utopia_iri, NamedNode};
use crate::text::{borrowed, opt_text};
use crate::uuid::Uuid;
use crate::vocabulary::Vocabulary;
use crate::words::lemma_export_word;
use vstd::prelude::*;

verus! {

broadcast use {group_steps, lemma_export_word};

/// The IRI of the rule that a derived fact comes from: an axiom, or else a business rule.
pub open spec fn deriving_rule(names: Names, d: ExportDerived) -> Option<Seq<char>> {
    match (d.rule_id, d.attribute_rule_id) {
        (Some(r), _) => Some(names.rule_iri(r)),
        (None, Some(r)) => Some(names.attribute_rule_iri(r)),
        (None, None) => None,
    }
}

/// The rows at which a derived fact is refused before a triple of it is written.
#[verifier::opaque]
pub open spec fn derived_barrier_steps(names: Names, d: ExportDerived) -> Seq<Step> {
    inside_steps(names, d.subject_kb, "derived.subject"@)
        + inside_if_steps(names, d.object_id, d.object_kb, "derived.object"@)
        + inside_steps(names, d.predicate_kb, "derived.predicate"@)
        + inside_if_steps(names, d.rule_id, d.rule_kb, "derived.rule"@)
        + inside_if_steps(names, d.attribute_rule_id, d.attribute_rule_kb, "derived.attribute_rule"@)
        + stop_if(d.subject_merged, unexported_message("derived.subject(merged)"@))
        + stop_if(d.object_merged, unexported_message("derived.object(merged)"@))
        + stop_if(d.foreign_fact_premise, outside_message("derivation.premise_fact"@))
        + stop_if(d.foreign_derived_premise, outside_message("derivation.premise_derived"@))
        + stop_if(deriving_rule(names, d) is None, unresolved_message("derived.rule"@))
}

fn pass_derived(names: &Names, d: &ExportDerived) -> (r: Result<(), Refused>)
    ensures
        barrier(r, derived_barrier_steps(*names, *d)),
        r is Ok ==> deriving_rule(*names, *d) is Some,
{
    proof {
        reveal(derived_barrier_steps);
    }
    inside(names, d.subject_kb, "derived.subject")?;
    inside_if(names, d.object_id, d.object_kb, "derived.object")?;
    inside(names, d.predicate_kb, "derived.predicate")?;
    inside_if(names, d.rule_id, d.rule_kb, "derived.rule")?;
    inside_if(names, d.attribute_rule_id, d.attribute_rule_kb, "derived.attribute_rule")?;
    not_merged(d.subject_merged, "derived.subject(merged)")?;
    not_merged(d.object_merged, "derived.object(merged)")?;
    not_foreign(d.foreign_fact_premise, "derivation.premise_fact")?;
    not_foreign(d.foreign_derived_premise, "derivation.premise_derived")?;
    proof {
        reveal(stop_if);
    }
    if d.rule_id.is_none() && d.attribute_rule_id.is_none() {
        Err(resolved("derived.rule"))
    } else {
        Ok(())
    }
}

/// The object of a derived fact: an entity, or else the concluded value.
#[verifier::opaque]
pub open spec fn derived_object_steps(
    names: Names,
    vocab: Vocabulary,
    stmt: Seq<char>,
    d: ExportDerived,
) -> Seq<Step> {
    match (d.object_id, d.object_value) {
        (Some(o), _) => res(stmt, rdf_iri("object"@), names.entity_iri(o)),
        (None, Some(v)) => lit(
            stmt,
            rdf_iri("object"@),
            value_literal(v@, vocab.datatype(d.predicate_id)),
        ),
        (None, None) => nothing(),
    }
}

fn emit_derived_object(
    sink: &mut Sink,
    names: &Names,
    vocab: &Vocabulary,
    stmt: &NamedNode,
    d: &ExportDerived,
)
    requires
        old(sink).wf(),
    ensures
        wrote(*old(sink), *final(sink), derived_object_steps(*names, *vocab, stmt@, *d)),
{
    proof {
        reveal(derived_object_steps);
    }
    match (d.object_id, &d.object_value) {
        (Some(o), _) => {
            sink.r(stmt, &rdf("object"), &names.entity(o));
        },
        (None, Some(v)) => {
            let shape = vocab.literal_shape(d.predicate_id);
            sink.l(stmt, &rdf("object"), &literal_value(v, shape.0));
        },
        (None, None) => {},
    }
}

/// The fact that a premise is.
pub open spec fn premise_target(names: Names, p: ExportPremise) -> Option<Seq<char>> {
    match (p.fact_id, p.derived_id) {
        (Some(f), _) => Some(names.fact_iri(f)),
        (None, Some(d)) => Some(names.derived_iri(d)),
        (None, None) => None,
    }
}

/// A premise, twice: flat, for those who ask what a conclusion used, and as a node of its own,
/// which says at which place of the proof.
#[verifier::opaque]
pub open spec fn premise_steps(
    names: Names,
    stmt: Seq<char>,
    derived_id: Uuid,
    p: ExportPremise,
) -> Seq<Step> {
    match premise_target(names, p) {
        Some(target) => {
            let node = names.premise_iri(derived_id, p.seq);
            res(stmt, prov_iri("used"@), target)
                + res(stmt, utopia_iri("premise"@), node)
                + res(node, rdf_iri("type"@), utopia_iri("Premise"@))
                + lit(node, utopia_iri("seq"@), integer_literal(p.seq as int))
                + res(node, prov_iri("used"@), target)
        },
        None => stop_if(true, unresolved_message("derivation.premise"@)),
    }
}

fn emit_premise(
    sink: &mut Sink,
    names: &Names,
    stmt: &NamedNode,
    derived_id: Uuid,
    p: &ExportPremise,
) -> (r: Result<(), Refused>)
    requires
        old(sink).wf(),
    ensures
        took(*old(sink), *final(sink), r, premise_steps(*names, stmt@, derived_id, *p)),
{
    proof {
        reveal(premise_steps);
    }
    let target: NamedNode = match (p.fact_id, p.derived_id) {
        (Some(f), _) => names.fact(f),
        (None, Some(d)) => names.derived(d),
        (None, None) => {
            return Err(resolved("derivation.premise"));
        },
    };
    let node: NamedNode = names.premise(derived_id, p.seq);
    emit_link(sink, stmt, &prov("used"), &target);
    emit_link(sink, stmt, &utopia("premise"), &node);
    emit_link(sink, &node, &rdf("type"), &utopia("Premise"));
    emit_integer(sink, &node, &utopia("seq"), p.seq as i64);
    emit_link(sink, &node, &prov("used"), &target);
    Ok(())
}

/// The steps for the `i`-th premise of a derived fact.
pub open spec fn premise_at(
    names: Names,
    stmt: Seq<char>,
    derived_id: Uuid,
    premises: Seq<ExportPremise>,
) -> spec_fn(int) -> Seq<Step> {
    |i: int| premise_steps(names, stmt, derived_id, premises[i])
}

/// The steps for the premises of a derived fact, in the order of the proof.
#[verifier::opaque]
pub open spec fn premises_steps(
    names: Names,
    stmt: Seq<char>,
    derived_id: Uuid,
    premises: Seq<ExportPremise>,
) -> Seq<Step> {
    each(premises.len(), premise_at(names, stmt, derived_id, premises))
}

fn emit_premises(
    sink: &mut Sink,
    names: &Names,
    stmt: &NamedNode,
    derived_id: Uuid,
    premises: &Vec<ExportPremise>,
) -> (r: Result<(), Refused>)
    requires
        old(sink).wf(),
    ensures
        took(*old(sink), *final(sink), r, premises_steps(*names, stmt@, derived_id, premises@)),
{
    proof {
        reveal(premises_steps);
    }
    let ghost f = premise_at(*names, stmt@, derived_id, premises@);
    let mut i: usize = 0;
    while i < premises.len()
        invariant
            i <= premises@.len(),
            f == premise_at(*names, stmt@, derived_id, premises@),
            sink.wf(),
            wrote(*old(sink), *sink, each(i as nat, f)),
        decreases premises@.len() - i,
    {
        proof {
            assert(each((i + 1) as nat, f) == each(i as nat, f) + f(i as int));
        }
        let r = emit_premise(sink, names, stmt, derived_id, &premises[i]);
        if r.is_err() {
            proof {
                reveal(premises_steps);
                lemma_each_stops((i + 1) as nat, premises@.len(), f);
            }
            return r;
        }
        i += 1;
    }
    Ok(())
}

/// The steps for a derived fact: a statement only, and never the edge itself. It was concluded and
/// not asserted, and nobody should take it for the words of a document.
pub open spec fn derived_steps(names: Names, vocab: Vocabulary, d: ExportDerived) -> Seq<Step> {
    let stmt = names.derived_iri(d.id);
    derived_barrier_steps(names, d)
        + res(stmt, rdf_iri("type"@), rdf_iri("Statement"@))
        + res(stmt, rdf_iri("subject"@), names.entity_iri(d.subject_id))
        + relation_ref_steps(vocab, stmt, rdf_iri("predicate"@), d.predicate_id, "derived.predicate"@)
        + derived_object_steps(names, vocab, stmt, d)
        + mark_steps(stmt, utopia_iri("derived"@), true)
        + unit_steps(stmt, d.object_value)
        + validity_steps(
        stmt,
        d.valid_from,
        opt_text(d.valid_from_precision),
        d.valid_to,
        opt_text(d.valid_to_precision),
    )
        + lit(stmt, prov_iri("generatedAtTime"@), instant_literal(d.derived_at))
        + opt_instant_steps(stmt, prov_iri("invalidatedAtTime"@), d.invalidated_at)
        + lit(stmt, utopia_iri("confidence"@), confidence_literal(d.confidence@))
        + res(stmt, prov_iri("wasGeneratedBy"@), deriving_rule(names, d).unwrap_or(Seq::empty()))
        + premises_steps(names, stmt, d.id, d.premises@)
}

/// Writes a derived fact.
pub fn emit_derived(
    sink: &mut Sink,
    names: &Names,
    vocab: &Vocabulary,
    d: &ExportDerived,
) -> (r: Result<(), Refused>)
    requires
        old(sink).wf(),
    ensures
        took(*old(sink), *final(sink), r, derived_steps(*names, *vocab, *d)),
{
    pass_derived(names, d)?;
    let stmt: NamedNode = names.derived(d.id);
    let rule: NamedNode = match (d.rule_id, d.attribute_rule_id) {
        (Some(r), _) => names.rule(r),
        (None, Some(r)) => names.attribute_rule(r),
        (None, None) => {
            return Err(resolved("derived.rule"));
        },
    };
    emit_link(sink, &stmt, &rdf("type"), &rdf("Statement"));
    emit_link(sink, &stmt, &rdf("subject"), &names.entity(d.subject_id));
    emit_relation_ref(
        sink,
        vocab,
        &stmt,
        &rdf("predicate"),
        d.predicate_id,
        "derived.predicate",
    )?;
    emit_derived_object(sink, names, vocab, &stmt, d);
    emit_mark(sink, &stmt, &utopia("derived"), true);
    emit_unit(sink, &stmt, &d.object_value);
    emit_validity(
        sink,
        &stmt,
        d.valid_from,
        borrowed(&d.valid_from_precision),
        d.valid_to,
        borrowed(&d.valid_to_precision),
    );
    emit_instant(sink, &stmt, &prov("generatedAtTime"), d.derived_at);
    emit_opt_instant(sink, &stmt, &prov("invalidatedAtTime"), d.invalidated_at);
    emit_literal(sink, &stmt, &utopia("confidence"), &confidence(d.confidence.as_str()));
    emit_link(sink, &stmt, &prov("wasGeneratedBy"), &rule);
    emit_premises(sink, names, &stmt, d.id, &d.premises)
}

} // verus!
