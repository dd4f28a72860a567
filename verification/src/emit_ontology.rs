//! Classes, relations and axioms.
use crate::cells::{
    class_refs_steps, emit_class_refs, emit_instant, emit_link, emit_mark, emit_nonempty,
    emit_opt_relation_ref, emit_opt_text, emit_relation_ref, emit_relation_refs, emit_text, inside,
    inside_steps, mark_steps, nonempty_steps, opt_relation_ref_steps, opt_text_steps,
    relation_ref_steps, relation_refs_steps,
};
use crate::literals::{instant_literal, text_literal};
use crate::names::Names;
use crate::rows::{ExportClass, ExportRelation, ExportRule};
use crate::sink::Sink;
use crate::steps::{group_steps, lit, nothing, only_if, res, took, wrote, Refused, Step};
use crate::term::{
    owl, owl_iri, plain_term, prov, prov_iri, rdf, rdf_iri, rdfs, rdfs_iri, utopia, utopia_iri,
    NamedNode,
};
use crate::text::str_eq;
use crate::vocabulary::Vocabulary;
use crate::words::lemma_export_word;
use vstd::prelude::*;

verus! {

broadcast use {group_steps, lemma_export_word};

/// What is said of a class under its IRI.
pub open spec fn class_row_steps(vocab: Vocabulary, iri: Seq<char>, c: ExportClass) -> Seq<Step> {
    res(iri, rdf_iri("type"@), owl_iri("Class"@))
        + lit(iri, rdfs_iri("label"@), text_literal(c.label@))
        + nonempty_steps(iri, rdfs_iri("comment"@), c.description)
        + mark_steps(iri, utopia_iri("builtin"@), c.builtin)
        + lit(iri, utopia_iri("updatedAt"@), instant_literal(c.updated_at))
        + class_refs_steps(vocab, iri, rdfs_iri("subClassOf"@), c.parents@, "class.parent"@)
        + class_refs_steps(vocab, iri, utopia_iri("primaryType"@), c.primary_parents@, "class.parent"@)
        + class_refs_steps(vocab, iri, owl_iri("disjointWith"@), c.disjoint@, "class.disjoint"@)
}

/// The steps for a class: none, if the vocabulary does not know it.
pub open spec fn class_steps(vocab: Vocabulary, c: ExportClass) -> Seq<Step> {
    match vocab.class_iri(c.id) {
        Some(iri) => class_row_steps(vocab, iri, c),
        None => nothing(),
    }
}

/// Writes a class.
pub fn emit_class(sink: &mut Sink, vocab: &Vocabulary, c: &ExportClass) -> (r: Result<(), Refused>)
    requires
        old(sink).wf(),
    ensures
        took(*old(sink), *final(sink), r, class_steps(*vocab, *c)),
{
    let iri: NamedNode = match vocab.class(c.id) {
        Some(n) => n.copy(),
        None => {
            return Ok(());
        },
    };
    emit_link(sink, &iri, &rdf("type"), &owl("Class"));
    emit_text(sink, &iri, &rdfs("label"), c.label.as_str());
    emit_nonempty(sink, &iri, &rdfs("comment"), &c.description);
    emit_mark(sink, &iri, &utopia("builtin"), c.builtin);
    emit_instant(sink, &iri, &utopia("updatedAt"), c.updated_at);
    emit_class_refs(sink, vocab, &iri, &rdfs("subClassOf"), &c.parents, "class.parent")?;
    emit_class_refs(sink, vocab, &iri, &utopia("primaryType"), &c.primary_parents, "class.parent")?;
    emit_class_refs(sink, vocab, &iri, &owl("disjointWith"), &c.disjoint, "class.disjoint")
}

/// The type that an axiom gives a relation, if the relation has it.
#[verifier::opaque]
pub open spec fn axiom_steps(iri: Seq<char>, on: bool, term: Seq<char>) -> Seq<Step> {
    only_if(on, res(iri, rdf_iri("type"@), owl_iri(term)))
}

fn emit_axiom(sink: &mut Sink, iri: &NamedNode, on: bool, term: &str)
    requires
        old(sink).wf(),
        plain_term(term@),
    ensures
        wrote(*old(sink), *final(sink), axiom_steps(iri@, on, term@)),
{
    proof {
        reveal(axiom_steps);
    }
    if on {
        sink.r(iri, &rdf("type"), &owl(term));
    }
}

/// What a relation is and is called, and its axioms.
pub open spec fn relation_head_steps(iri: Seq<char>, r: ExportRelation) -> Seq<Step> {
    res(
        iri,
        rdf_iri("type"@),
        owl_iri(
            if r.kind@ == "attribute"@ {
                "DatatypeProperty"@
            } else {
                "ObjectProperty"@
            },
        ),
    )
        + lit(iri, rdfs_iri("label"@), text_literal(r.label@))
        + nonempty_steps(iri, rdfs_iri("comment"@), r.description)
        + axiom_steps(iri, r.functional, "FunctionalProperty"@)
        + axiom_steps(iri, r.inverse_functional, "InverseFunctionalProperty"@)
        + axiom_steps(iri, r.is_transitive, "TransitiveProperty"@)
        + axiom_steps(iri, r.is_symmetric, "SymmetricProperty"@)
        + axiom_steps(iri, r.is_asymmetric, "AsymmetricProperty"@)
        + axiom_steps(iri, r.is_irreflexive, "IrreflexiveProperty"@)
        + only_if(r.temporal@ != "state"@, lit(iri, utopia_iri("temporal"@), text_literal(r.temporal@)))
        + mark_steps(iri, utopia_iri("builtin"@), r.builtin)
}

/// The other relations and the classes that a relation refers to.
pub open spec fn relation_ref_row_steps(
    vocab: Vocabulary,
    iri: Seq<char>,
    r: ExportRelation,
) -> Seq<Step> {
    opt_relation_ref_steps(vocab, iri, owl_iri("inverseOf"@), r.inverse_of, "relation.inverse"@)
        + opt_relation_ref_steps(
        vocab,
        iri,
        rdfs_iri("subPropertyOf"@),
        r.sub_property_of,
        "relation.sub_property"@,
    )
        + relation_refs_steps(
        vocab,
        iri,
        utopia_iri("allowedQualifier"@),
        r.qualifiers@,
        "relation.qualifier"@,
    )
        + class_refs_steps(vocab, iri, rdfs_iri("domain"@), r.domains@, "relation.domain"@)
        + class_refs_steps(vocab, iri, rdfs_iri("range"@), r.ranges@, "relation.range"@)
}

/// What is said of a relation under its IRI.
pub open spec fn relation_row_steps(
    vocab: Vocabulary,
    iri: Seq<char>,
    r: ExportRelation,
) -> Seq<Step> {
    relation_head_steps(iri, r)
        + relation_ref_row_steps(vocab, iri, r)
        + opt_text_steps(iri, utopia_iri("datatype"@), r.datatype)
        + opt_text_steps(iri, utopia_iri("unit"@), r.unit)
        + lit(iri, utopia_iri("updatedAt"@), instant_literal(r.updated_at))
}

/// The steps for a relation: none, if the vocabulary does not know it.
pub open spec fn relation_steps(vocab: Vocabulary, r: ExportRelation) -> Seq<Step> {
    match vocab.relation_iri(r.id) {
        Some(iri) => relation_row_steps(vocab, iri, r),
        None => nothing(),
    }
}

fn emit_relation_head(sink: &mut Sink, iri: &NamedNode, r: &ExportRelation)
    requires
        old(sink).wf(),
    ensures
        wrote(*old(sink), *final(sink), relation_head_steps(iri@, *r)),
{
    let kind: NamedNode = if str_eq(r.kind.as_str(), "attribute") {
        owl("DatatypeProperty")
    } else {
        owl("ObjectProperty")
    };
    emit_link(sink, iri, &rdf("type"), &kind);
    emit_text(sink, iri, &rdfs("label"), r.label.as_str());
    emit_nonempty(sink, iri, &rdfs("comment"), &r.description);
    emit_axiom(sink, iri, r.functional, "FunctionalProperty");
    emit_axiom(sink, iri, r.inverse_functional, "InverseFunctionalProperty");
    emit_axiom(sink, iri, r.is_transitive, "TransitiveProperty");
    emit_axiom(sink, iri, r.is_symmetric, "SymmetricProperty");
    emit_axiom(sink, iri, r.is_asymmetric, "AsymmetricProperty");
    emit_axiom(sink, iri, r.is_irreflexive, "IrreflexiveProperty");
    // States are the default and go without saying.
    if !str_eq(r.temporal.as_str(), "state") {
        emit_text(sink, iri, &utopia("temporal"), r.temporal.as_str());
    }
    emit_mark(sink, iri, &utopia("builtin"), r.builtin);
}

fn emit_relation_refs_of(
    sink: &mut Sink,
    vocab: &Vocabulary,
    iri: &NamedNode,
    r: &ExportRelation,
) -> (result: Result<(), Refused>)
    requires
        old(sink).wf(),
    ensures
        took(*old(sink), *final(sink), result, relation_ref_row_steps(*vocab, iri@, *r)),
{
    emit_opt_relation_ref(sink, vocab, iri, &owl("inverseOf"), r.inverse_of, "relation.inverse")?;
    emit_opt_relation_ref(
        sink,
        vocab,
        iri,
        &rdfs("subPropertyOf"),
        r.sub_property_of,
        "relation.sub_property",
    )?;
    emit_relation_refs(
        sink,
        vocab,
        iri,
        &utopia("allowedQualifier"),
        &r.qualifiers,
        "relation.qualifier",
    )?;
    emit_class_refs(sink, vocab, iri, &rdfs("domain"), &r.domains, "relation.domain")?;
    emit_class_refs(sink, vocab, iri, &rdfs("range"), &r.ranges, "relation.range")
}

/// Writes a relation.
pub fn emit_relation(
    sink: &mut Sink,
    vocab: &Vocabulary,
    r: &ExportRelation,
) -> (result: Result<(), Refused>)
    requires
        old(sink).wf(),
    ensures
        took(*old(sink), *final(sink), result, relation_steps(*vocab, *r)),
{
    let iri: NamedNode = match vocab.relation(r.id) {
        Some(n) => n.copy(),
        None => {
            return Ok(());
        },
    };
    emit_relation_head(sink, &iri, r);
    emit_relation_refs_of(sink, vocab, &iri, r)?;
    emit_opt_text(sink, &iri, &utopia("datatype"), &r.datatype);
    emit_opt_text(sink, &iri, &utopia("unit"), &r.unit);
    emit_instant(sink, &iri, &utopia("updatedAt"), r.updated_at);
    Ok(())
}

/// The steps for an axiom.
pub open spec fn rule_steps(names: Names, vocab: Vocabulary, r: ExportRule) -> Seq<Step> {
    let iri = names.rule_iri(r.id);
    inside_steps(names, r.predicate_kb, "rule.predicate"@)
        + res(iri, rdf_iri("type"@), prov_iri("Activity"@))
        + lit(iri, rdfs_iri("label"@), text_literal(r.kind@))
        + lit(iri, utopia_iri("ruleKind"@), text_literal(r.kind@))
        + relation_ref_steps(vocab, iri, utopia_iri("onPredicate"@), r.predicate_id, "rule.predicate"@)
}

/// Writes an axiom: the activity that derives facts, and the relation it is about.
pub fn emit_rule(
    sink: &mut Sink,
    names: &Names,
    vocab: &Vocabulary,
    r: &ExportRule,
) -> (result: Result<(), Refused>)
    requires
        old(sink).wf(),
    ensures
        took(*old(sink), *final(sink), result, rule_steps(*names, *vocab, *r)),
{
    inside(names, r.predicate_kb, "rule.predicate")?;
    let iri: NamedNode = names.rule(r.id);
    emit_link(sink, &iri, &rdf("type"), &prov("Activity"));
    emit_text(sink, &iri, &rdfs("label"), r.kind.as_str());
    emit_text(sink, &iri, &utopia("ruleKind"), r.kind.as_str());
    emit_relation_ref(sink, vocab, &iri, &utopia("onPredicate"), r.predicate_id, "rule.predicate")
}

} // verus!
