//! What is written whole: exactly which rows no emitter refuses, and that rows that passed are
//! among them.
use crate::cells::{
    class_ref_steps, mark_steps, nonempty_steps, opt_class_ref_steps, opt_instant_steps,
    opt_integer_steps, opt_json_steps, opt_relation_ref_steps, opt_text_steps, relation_ref_steps,
    text_at, texts_steps,
};
use crate::emit_derived::{
    derived_object_steps, derived_steps, premise_at, premise_steps, premises_steps,
};
use crate::emit_fact::{
    document_link_at, document_links_steps, fact_claim_steps, fact_link_at, fact_links_steps,
    fact_record_steps, fact_steps, live_edge_steps, mention_at, mention_resolution_steps,
    mention_words_steps, mentions_steps, object_steps, open_steps, opt_fact_steps, predicate_steps,
    properties_steps, property_at, property_steps, property_value_steps, qualifier_at,
    qualifier_steps, qualifiers_steps, resolved_time_steps, unit_steps,
};
use crate::emit_ontology::{
    axiom_steps, class_steps, relation_head_steps, relation_steps, rule_steps,
};
use crate::emit_rules::{
    attribute_rule_steps, conclusion_steps, condition_at, condition_steps, conditions_steps,
    formula_steps, operand_steps,
};
use crate::emit_sources::{
    chunk_steps, document_content_steps, document_history_steps, document_steps, docversion_steps,
    entity_steps, evidence_steps, of_version_steps, opt_document_steps, published_steps,
};
use crate::emit_validity::validity_steps;
use crate::expr::expr_ids;
use crate::json::{Json, JsonView};
use crate::laws_refusal::{
    class_references_all_arrive, derived_admitted, derived_barriers, fact_admitted, fact_barriers,
    formula_reads_all_arrive, group_refusals, readable, relation_references_all_arrive, stays,
};
use crate::names::Names;
use crate::rows::{
    ExportAttributeRule, ExportChunk, ExportClass, ExportDerived, ExportDocument,
    ExportDocumentVersion, ExportEntity, ExportEvidence, ExportFact, ExportPremise, ExportRelation,
    ExportRule, ExportRuleCondition, ExportStatementQualifier, ExportTimeMention, FactQualifier,
};
use crate::steps::{each, group_steps, refusal, Step};
use crate::term::{owl_iri, rdfs_iri, utopia_iri, TermView};
use crate::time::DateTime;
use crate::uuid::Uuid;
use crate::vocabulary::Vocabulary;
use vstd::prelude::*;

verus! {

proof fn lemma_each_refusal(n: nat, f: spec_fn(int) -> Seq<Step>, ok: spec_fn(int) -> bool)
    requires
        forall|i: int| 0 <= i < n ==> (refusal(#[trigger] f(i)) is None <==> ok(i)),
    ensures
        refusal(each(n, f)) is None <==> (forall|i: int| 0 <= i < n ==> #[trigger] ok(i)),
    decreases n,
{
    broadcast use group_steps;

    if n > 0 {
        let k = (n - 1) as nat;
        lemma_each_refusal(k, f, ok);
        assert(each(n, f) == each(k, f) + f(n - 1));
        assert(refusal(f(n - 1)) is None <==> ok(n - 1));
    }
}

// ---- Cells that are never refused ----

pub broadcast proof fn lemma_opt_text(s: Seq<char>, p: Seq<char>, o: Option<String>)
    ensures
        #[trigger] refusal(opt_text_steps(s, p, o)) is None,
{
    broadcast use group_steps;

    reveal(opt_text_steps);
}

pub broadcast proof fn lemma_nonempty(s: Seq<char>, p: Seq<char>, o: String)
    ensures
        #[trigger] refusal(nonempty_steps(s, p, o)) is None,
{
    broadcast use group_steps;

    reveal(nonempty_steps);
}

pub broadcast proof fn lemma_opt_instant(s: Seq<char>, p: Seq<char>, o: Option<DateTime>)
    ensures
        #[trigger] refusal(opt_instant_steps(s, p, o)) is None,
{
    broadcast use group_steps;

    reveal(opt_instant_steps);
}

pub broadcast proof fn lemma_opt_integer(s: Seq<char>, p: Seq<char>, o: Option<i32>)
    ensures
        #[trigger] refusal(opt_integer_steps(s, p, o)) is None,
{
    broadcast use group_steps;

    reveal(opt_integer_steps);
}

pub broadcast proof fn lemma_opt_json(s: Seq<char>, p: Seq<char>, o: Option<Json>)
    ensures
        #[trigger] refusal(opt_json_steps(s, p, o)) is None,
{
    broadcast use group_steps;

    reveal(opt_json_steps);
}

pub broadcast proof fn lemma_mark(s: Seq<char>, p: Seq<char>, o: bool)
    ensures
        #[trigger] refusal(mark_steps(s, p, o)) is None,
{
    broadcast use group_steps;

    reveal(mark_steps);
}

pub broadcast proof fn lemma_texts(s: Seq<char>, p: Seq<char>, texts: Seq<String>)
    ensures
        #[trigger] refusal(texts_steps(s, p, texts)) is None,
{
    broadcast use group_steps;

    reveal(texts_steps);
    lemma_each_refusal(texts.len(), text_at(s, p, texts), |i: int| true);
}

pub broadcast proof fn lemma_fact_links(names: Names, s: Seq<char>, p: Seq<char>, ids: Seq<Uuid>)
    ensures
        #[trigger] refusal(fact_links_steps(names, s, p, ids)) is None,
{
    broadcast use group_steps;

    reveal(fact_links_steps);
    lemma_each_refusal(ids.len(), fact_link_at(names, s, p, ids), |i: int| true);
}

pub broadcast proof fn lemma_document_links(names: Names, s: Seq<char>, p: Seq<char>, ids: Seq<Uuid>)
    ensures
        #[trigger] refusal(document_links_steps(names, s, p, ids)) is None,
{
    broadcast use group_steps;

    reveal(document_links_steps);
    lemma_each_refusal(ids.len(), document_link_at(names, s, p, ids), |i: int| true);
}

pub broadcast proof fn lemma_open(stmt: Seq<char>, f: ExportFact)
    ensures
        #[trigger] refusal(open_steps(stmt, f)) is None,
{
    broadcast use {group_steps, lemma_opt_text};

    reveal(open_steps);
}

pub broadcast proof fn lemma_predicate(
    stmt: Seq<char>,
    predicate: Option<Seq<char>>,
    surface: Option<String>,
)
    ensures
        #[trigger] refusal(predicate_steps(stmt, predicate, surface)) is None,
{
    broadcast use group_steps;

    reveal(predicate_steps);
}

pub broadcast proof fn lemma_object(stmt: Seq<char>, object: Option<TermView>)
    ensures
        #[trigger] refusal(object_steps(stmt, object)) is None,
{
    broadcast use group_steps;

    reveal(object_steps);
}

pub broadcast proof fn lemma_unit(stmt: Seq<char>, value: Option<Json>)
    ensures
        #[trigger] refusal(unit_steps(stmt, value)) is None,
{
    broadcast use group_steps;

    reveal(unit_steps);
}

pub broadcast proof fn lemma_opt_fact(names: Names, s: Seq<char>, p: Seq<char>, id: Option<Uuid>)
    ensures
        #[trigger] refusal(opt_fact_steps(names, s, p, id)) is None,
{
    broadcast use group_steps;

    reveal(opt_fact_steps);
}

pub broadcast proof fn lemma_opt_document(names: Names, s: Seq<char>, p: Seq<char>, id: Option<Uuid>)
    ensures
        #[trigger] refusal(opt_document_steps(names, s, p, id)) is None,
{
    broadcast use group_steps;

    reveal(opt_document_steps);
}

pub broadcast proof fn lemma_of_version(
    names: Names,
    iri: Seq<char>,
    version_row: bool,
    document: Option<Uuid>,
    version: Option<i32>,
)
    ensures
        #[trigger] refusal(of_version_steps(names, iri, version_row, document, version)) is None,
{
    broadcast use group_steps;

    reveal(of_version_steps);
}

pub broadcast proof fn lemma_validity(
    stmt: Seq<char>,
    from: Option<DateTime>,
    from_precision: Option<Seq<char>>,
    to: Option<DateTime>,
    to_precision: Option<Seq<char>>,
)
    ensures
        #[trigger] refusal(validity_steps(stmt, from, from_precision, to, to_precision)) is None,
{
    broadcast use group_steps;

    reveal(validity_steps);
}

pub broadcast proof fn lemma_resolved_time(
    node: Seq<char>,
    p: Seq<char>,
    at: Option<DateTime>,
    precision: Option<Seq<char>>,
)
    ensures
        #[trigger] refusal(resolved_time_steps(node, p, at, precision)) is None,
{
    broadcast use group_steps;

    reveal(resolved_time_steps);
}

pub broadcast proof fn lemma_published(iri: Seq<char>, at: Option<DateTime>)
    ensures
        #[trigger] refusal(published_steps(iri, at)) is None,
{
    broadcast use group_steps;

    reveal(published_steps);
}

pub broadcast proof fn lemma_live_edge(names: Names, vocab: Vocabulary, f: ExportFact, now: DateTime)
    ensures
        #[trigger] refusal(live_edge_steps(names, vocab, f, now)) is None,
{
    broadcast use group_steps;

    reveal(live_edge_steps);
}

pub broadcast proof fn lemma_derived_object(
    names: Names,
    vocab: Vocabulary,
    stmt: Seq<char>,
    d: ExportDerived,
)
    ensures
        #[trigger] refusal(derived_object_steps(names, vocab, stmt, d)) is None,
{
    broadcast use group_steps;

    reveal(derived_object_steps);
}

// ---- Cells that depend on the vocabulary ----

pub broadcast proof fn lemma_class_ref(
    vocab: Vocabulary,
    s: Seq<char>,
    p: Seq<char>,
    id: Uuid,
    edge: Seq<char>,
)
    ensures
        (#[trigger] refusal(class_ref_steps(vocab, s, p, id, edge))) is None == (vocab.class_iri(
            id,
        ) is Some),
{
    broadcast use group_steps;

    reveal(class_ref_steps);
}

pub broadcast proof fn lemma_relation_ref(
    vocab: Vocabulary,
    s: Seq<char>,
    p: Seq<char>,
    id: Uuid,
    edge: Seq<char>,
)
    ensures
        (#[trigger] refusal(relation_ref_steps(vocab, s, p, id, edge))) is None
            == (vocab.relation_iri(id) is Some),
{
    broadcast use group_steps;

    reveal(relation_ref_steps);
}

/// The vocabulary knows a class that a row may do without.
pub open spec fn knows_class(vocab: Vocabulary, id: Option<Uuid>) -> bool {
    id matches Some(i) ==> vocab.class_iri(i) is Some
}

/// The vocabulary knows a relation that a row may do without.
pub open spec fn knows_relation(vocab: Vocabulary, id: Option<Uuid>) -> bool {
    id matches Some(i) ==> vocab.relation_iri(i) is Some
}

/// The vocabulary knows all these classes.
pub open spec fn knows_classes(vocab: Vocabulary, ids: Seq<Uuid>) -> bool {
    forall|i: int| 0 <= i < ids.len() ==> vocab.class_iri(#[trigger] ids[i]) is Some
}

/// The vocabulary knows all these relations.
pub open spec fn knows_relations(vocab: Vocabulary, ids: Seq<Uuid>) -> bool {
    forall|i: int| 0 <= i < ids.len() ==> vocab.relation_iri(#[trigger] ids[i]) is Some
}

/// The vocabulary knows everything that a formula reads.
pub open spec fn knows_formula(vocab: Vocabulary, formula: JsonView) -> bool {
    forall|i: int|
        0 <= i < expr_ids(formula).len() ==> readable(vocab, #[trigger] expr_ids(formula)[i])
}

pub broadcast proof fn lemma_opt_class_ref(
    vocab: Vocabulary,
    s: Seq<char>,
    p: Seq<char>,
    id: Option<Uuid>,
    edge: Seq<char>,
)
    ensures
        (#[trigger] refusal(opt_class_ref_steps(vocab, s, p, id, edge))) is None == knows_class(
            vocab,
            id,
        ),
{
    broadcast use {group_steps, lemma_class_ref};

    reveal(opt_class_ref_steps);
}

pub broadcast proof fn lemma_opt_relation_ref(
    vocab: Vocabulary,
    s: Seq<char>,
    p: Seq<char>,
    id: Option<Uuid>,
    edge: Seq<char>,
)
    ensures
        (#[trigger] refusal(opt_relation_ref_steps(vocab, s, p, id, edge))) is None
            == knows_relation(vocab, id),
{
    broadcast use {group_steps, lemma_relation_ref};

    reveal(opt_relation_ref_steps);
}

pub broadcast group group_cells {
    lemma_opt_text,
    lemma_nonempty,
    lemma_opt_instant,
    lemma_opt_integer,
    lemma_opt_json,
    lemma_mark,
    lemma_texts,
    lemma_fact_links,
    lemma_document_links,
    lemma_open,
    lemma_predicate,
    lemma_object,
    lemma_unit,
    lemma_opt_fact,
    lemma_opt_document,
    lemma_of_version,
    lemma_validity,
    lemma_resolved_time,
    lemma_published,
    lemma_live_edge,
    lemma_derived_object,
    lemma_class_ref,
    lemma_relation_ref,
    lemma_opt_class_ref,
    lemma_opt_relation_ref,
}

// ---- The ontology ----

/// A class is written whole exactly if the vocabulary knows every class that it names. (One that the
/// vocabulary does not know itself is not written at all.)
pub proof fn class_is_written_iff(vocab: Vocabulary, c: ExportClass)
    ensures
        refusal(class_steps(vocab, c)) is None <==> (vocab.class_iri(c.id) is Some ==> knows_classes(
            vocab,
            c.parents@,
        ) && knows_classes(vocab, c.primary_parents@) && knows_classes(vocab, c.disjoint@)),
{
    broadcast use {group_steps, group_cells};

    if let Some(iri) = vocab.class_iri(c.id) {
        class_references_all_arrive(
            vocab,
            iri,
            rdfs_iri("subClassOf"@),
            c.parents@,
            "class.parent"@,
        );
        class_references_all_arrive(
            vocab,
            iri,
            utopia_iri("primaryType"@),
            c.primary_parents@,
            "class.parent"@,
        );
        class_references_all_arrive(
            vocab,
            iri,
            owl_iri("disjointWith"@),
            c.disjoint@,
            "class.disjoint"@,
        );
    }
}

/// A relation is written whole exactly if the vocabulary knows everything that it names. (One that
/// the vocabulary does not know itself is not written at all.)
pub proof fn relation_is_written_iff(vocab: Vocabulary, r: ExportRelation)
    ensures
        refusal(relation_steps(vocab, r)) is None <==> (vocab.relation_iri(r.id) is Some
            ==> knows_relation(vocab, r.inverse_of) && knows_relation(vocab, r.sub_property_of)
            && knows_relations(vocab, r.qualifiers@) && knows_classes(vocab, r.domains@)
            && knows_classes(vocab, r.ranges@)),
{
    broadcast use {group_steps, group_cells};

    if let Some(iri) = vocab.relation_iri(r.id) {
        relation_references_all_arrive(
            vocab,
            iri,
            utopia_iri("allowedQualifier"@),
            r.qualifiers@,
            "relation.qualifier"@,
        );
        class_references_all_arrive(vocab, iri, rdfs_iri("domain"@), r.domains@, "relation.domain"@);
        class_references_all_arrive(vocab, iri, rdfs_iri("range"@), r.ranges@, "relation.range"@);
        assert(refusal(relation_head_steps(iri, r)) is None) by {
            reveal(axiom_steps);
        }
    }
}

/// An axiom is written whole exactly if its relation is one of the knowledge base and known.
pub proof fn rule_is_written_iff(names: Names, vocab: Vocabulary, r: ExportRule)
    ensures
        refusal(rule_steps(names, vocab, r)) is None <==> r.predicate_kb == Some(names.kb())
            && vocab.relation_iri(r.predicate_id) is Some,
{
    broadcast use {group_steps, group_cells, group_refusals};

}

proof fn lemma_operand(vocab: Vocabulary, node: Seq<char>, operand: Option<Json>)
    ensures
        refusal(operand_steps(vocab, node, operand)) is None <==> (operand matches Some(o) ==> o@
            is Object ==> knows_formula(vocab, o@)),
{
    broadcast use group_steps;

    reveal(operand_steps);
    if let Some(o) = operand {
        formula_reads_all_arrive(vocab, node, o@, "condition.expr_predicate"@);
    }
}

/// A condition that is not refused: its relation is one of the knowledge base and known, and so is
/// everything that a formula in it reads.
pub open spec fn condition_writable(
    names: Names,
    vocab: Vocabulary,
    c: ExportRuleCondition,
) -> bool {
    &&& c.predicate_kb == Some(names.kb())
    &&& vocab.relation_iri(c.predicate_id) is Some
    &&& c.operand matches Some(o) ==> o@ is Object ==> knows_formula(vocab, o@)
}

proof fn lemma_condition(
    names: Names,
    vocab: Vocabulary,
    rule: Seq<char>,
    c: ExportRuleCondition,
)
    ensures
        refusal(condition_steps(names, vocab, rule, c)) is None <==> condition_writable(
            names,
            vocab,
            c,
        ),
{
    broadcast use {group_steps, group_cells, group_refusals};

    reveal(condition_steps);
    lemma_operand(vocab, names.condition_iri(c.rule_id, c.group_seq, c.seq), c.operand);
}

/// A business rule that is not refused: its references stay inside the knowledge base and are known,
/// and so are those of its formulas and conditions.
pub open spec fn attribute_rule_writable(
    names: Names,
    vocab: Vocabulary,
    r: ExportAttributeRule,
) -> bool {
    &&& r.subject_type_kb == Some(names.kb())
    &&& stays(names, r.conclude_type_id, r.conclude_type_kb)
    &&& stays(names, r.conclude_predicate_id, r.conclude_predicate_kb)
    &&& vocab.class_iri(r.subject_type_id) is Some
    &&& knows_class(vocab, r.conclude_type_id)
    &&& knows_relation(vocab, r.conclude_predicate_id)
    &&& (r.conclude_expr matches Some(e) ==> knows_formula(vocab, e@))
    &&& forall|i: int|
        0 <= i < r.conditions@.len() ==> condition_writable(names, vocab, #[trigger] r.conditions@[i])
}

/// Exactly which business rules are written whole.
pub proof fn attribute_rule_is_written_iff(names: Names, vocab: Vocabulary, r: ExportAttributeRule)
    ensures
        refusal(attribute_rule_steps(names, vocab, r)) is None <==> attribute_rule_writable(
            names,
            vocab,
            r,
        ),
{
    let iri = names.attribute_rule_iri(r.id);
    let conditions = r.conditions@;
    assert(refusal(conditions_steps(names, vocab, iri, conditions)) is None <==> (forall|i: int|
        0 <= i < conditions.len() ==> condition_writable(names, vocab, #[trigger] conditions[i]))) by {
        reveal(conditions_steps);
        let ok = |i: int| condition_writable(names, vocab, conditions[i]);
        let f = condition_at(names, vocab, iri, conditions);
        assert forall|i: int| 0 <= i < conditions.len() implies (refusal(#[trigger] f(i)) is None
            <==> ok(i)) by {
            lemma_condition(names, vocab, iri, conditions[i]);
        }
        lemma_each_refusal(conditions.len(), f, ok);
        if refusal(each(conditions.len(), f)) is None {
            assert forall|i: int| 0 <= i < conditions.len() implies condition_writable(
                names,
                vocab,
                #[trigger] conditions[i],
            ) by {
                assert(ok(i));
            }
        }
    }
    broadcast use {group_steps, group_cells, group_refusals};

    assert(refusal(conclusion_steps(vocab, iri, r.conclude_predicate_id, r.conclude_value)) is None
        <==> knows_relation(vocab, r.conclude_predicate_id)) by {
        reveal(conclusion_steps);
    }
    assert(refusal(formula_steps(vocab, iri, r.conclude_expr)) is None <==> (r.conclude_expr matches Some(
        e,
    ) ==> knows_formula(vocab, e@))) by {
        reveal(formula_steps);
        if let Some(e) = r.conclude_expr {
            formula_reads_all_arrive(vocab, iri, e@, "arule.expr_predicate"@);
        }
    }
}

// ---- Entities and sources ----

/// An entity is written whole exactly if its class is known, where it has one.
pub proof fn entity_is_written_iff(names: Names, vocab: Vocabulary, e: ExportEntity)
    ensures
        refusal(entity_steps(names, vocab, e)) is None <==> knows_class(vocab, e.type_id),
{
    broadcast use {group_steps, group_cells};

}

/// A document is always written whole.
pub proof fn document_is_written(names: Names, d: ExportDocument)
    ensures
        refusal(document_steps(names, d)) is None,
{
    broadcast use {group_steps, group_cells};

    reveal(document_content_steps);
    reveal(document_history_steps);
}

/// Passages, versions and evidence are written whole exactly if their references stay inside the
/// knowledge base.
pub proof fn sources_are_written_iff(
    names: Names,
    c: ExportChunk,
    v: ExportDocumentVersion,
    e: ExportEvidence,
)
    ensures
        refusal(chunk_steps(names, c)) is None <==> c.document_kb == Some(names.kb()),
        refusal(docversion_steps(names, v)) is None <==> v.document_kb == Some(names.kb()),
        refusal(evidence_steps(names, e)) is None <==> e.chunk_kb == Some(names.kb()) && stays(
            names,
            e.document_id,
            e.document_kb,
        ),
{
    broadcast use {group_steps, group_cells, group_refusals};

}

// ---- Facts ----

/// A property of a statement that is not refused. (Its entity is looked at only where it has no
/// value.)
pub open spec fn property_writable(names: Names, q: ExportStatementQualifier) -> bool {
    q.value is None && q.entity_id is Some ==> q.entity_kb == Some(names.kb()) && !q.entity_merged
}

proof fn lemma_property(names: Names, stmt: Seq<char>, q: ExportStatementQualifier, i: nat)
    ensures
        refusal(property_steps(names, stmt, q, i)) is None <==> property_writable(names, q),
{
    broadcast use {group_steps, group_refusals};

    reveal(property_steps);
    reveal(property_value_steps);
}

proof fn lemma_mention(names: Names, stmt: Seq<char>, m: ExportTimeMention)
    ensures
        refusal(mention_words_steps(names, stmt, m) + mention_resolution_steps(names, m)) is None
            <==> m.chunk_kb == Some(names.kb()),
{
    broadcast use {group_steps, group_cells, group_refusals};

    reveal(mention_words_steps);
    reveal(mention_resolution_steps);
}

/// A fact that is not refused: no barrier stops it, the types of its properties are known, and what
/// its statement refers to stays inside the knowledge base.
pub open spec fn fact_writable(names: Names, vocab: Vocabulary, f: ExportFact) -> bool {
    &&& fact_admitted(names, vocab, f)
    &&& forall|i: int|
        0 <= i < f.qualifiers@.len() ==> vocab.relation_iri(
            (#[trigger] f.qualifiers@[i]).qualifier_type_id,
        ) is Some
    &&& forall|i: int|
        0 <= i < f.statement_qualifiers@.len() ==> property_writable(
            names,
            #[trigger] f.statement_qualifiers@[i],
        )
    &&& forall|i: int|
        0 <= i < f.time_mentions@.len() ==> (#[trigger] f.time_mentions@[i]).chunk_kb == Some(
            names.kb(),
        )
}

proof fn lemma_qualifiers(
    names: Names,
    vocab: Vocabulary,
    stmt: Seq<char>,
    qualifiers: Seq<FactQualifier>,
)
    ensures
        refusal(qualifiers_steps(names, vocab, stmt, qualifiers)) is None <==> (forall|i: int|
            0 <= i < qualifiers.len() ==> vocab.relation_iri(
                (#[trigger] qualifiers[i]).qualifier_type_id,
            ) is Some),
{
    broadcast use group_steps;

    reveal(qualifiers_steps);
    reveal(qualifier_steps);
    let ok = |i: int| vocab.relation_iri(qualifiers[i].qualifier_type_id) is Some;
    let f = qualifier_at(names, vocab, stmt, qualifiers);
    lemma_each_refusal(qualifiers.len(), f, ok);
    if refusal(each(qualifiers.len(), f)) is None {
        assert forall|i: int| 0 <= i < qualifiers.len() implies vocab.relation_iri(
            (#[trigger] qualifiers[i]).qualifier_type_id,
        ) is Some by {
            assert(ok(i));
        }
    }
}

proof fn lemma_properties(
    names: Names,
    stmt: Seq<char>,
    qualifiers: Seq<ExportStatementQualifier>,
)
    ensures
        refusal(properties_steps(names, stmt, qualifiers)) is None <==> (forall|i: int|
            0 <= i < qualifiers.len() ==> property_writable(names, #[trigger] qualifiers[i])),
{
    reveal(properties_steps);
    let ok = |i: int| property_writable(names, qualifiers[i]);
    let f = property_at(names, stmt, qualifiers);
    assert forall|i: int| 0 <= i < qualifiers.len() implies (refusal(#[trigger] f(i)) is None <==> ok(
        i,
    )) by {
        lemma_property(names, stmt, qualifiers[i], i as nat);
    }
    lemma_each_refusal(qualifiers.len(), f, ok);
    if refusal(each(qualifiers.len(), f)) is None {
        assert forall|i: int| 0 <= i < qualifiers.len() implies property_writable(
            names,
            #[trigger] qualifiers[i],
        ) by {
            assert(ok(i));
        }
    }
}

proof fn lemma_mentions(names: Names, stmt: Seq<char>, mentions: Seq<ExportTimeMention>)
    ensures
        refusal(mentions_steps(names, stmt, mentions)) is None <==> (forall|i: int|
            0 <= i < mentions.len() ==> (#[trigger] mentions[i]).chunk_kb == Some(names.kb())),
{
    reveal(mentions_steps);
    let ok = |i: int| mentions[i].chunk_kb == Some(names.kb());
    let f = mention_at(names, stmt, mentions);
    assert forall|i: int| 0 <= i < mentions.len() implies (refusal(#[trigger] f(i)) is None <==> ok(
        i,
    )) by {
        lemma_mention(names, stmt, mentions[i]);
    }
    lemma_each_refusal(mentions.len(), f, ok);
    if refusal(each(mentions.len(), f)) is None {
        assert forall|i: int| 0 <= i < mentions.len() implies (#[trigger] mentions[i]).chunk_kb == Some(
            names.kb(),
        ) by {
            assert(ok(i));
        }
    }
}

/// Exactly which facts are written whole.
pub proof fn fact_is_written_iff(names: Names, vocab: Vocabulary, f: ExportFact, now: DateTime)
    ensures
        refusal(fact_steps(names, vocab, f, now)) is None <==> fact_writable(names, vocab, f),
{
    let stmt = names.fact_iri(f.id);
    fact_barriers(names, vocab, f);
    lemma_qualifiers(names, vocab, stmt, f.qualifiers@);
    lemma_properties(names, stmt, f.statement_qualifiers@);
    lemma_mentions(names, stmt, f.time_mentions@);
    assert(refusal(fact_claim_steps(names, vocab, f)) is None && refusal(fact_record_steps(names, f)) is None) by {
        broadcast use {group_steps, group_cells};

        reveal(fact_claim_steps);
        reveal(fact_record_steps);
    }
    broadcast use group_steps;

    lemma_live_edge(names, vocab, f, now);
}

// ---- Derived facts ----

/// A derived fact that is not refused: no barrier stops it, its relation is known, and each premise
/// is a fact or a derived fact.
pub open spec fn derived_writable(names: Names, vocab: Vocabulary, d: ExportDerived) -> bool {
    &&& derived_admitted(names, d)
    &&& vocab.relation_iri(d.predicate_id) is Some
    &&& forall|i: int|
        0 <= i < d.premises@.len() ==> (#[trigger] d.premises@[i]).fact_id is Some
            || d.premises@[i].derived_id is Some
}

proof fn lemma_premises(
    names: Names,
    stmt: Seq<char>,
    derived_id: Uuid,
    premises: Seq<ExportPremise>,
)
    ensures
        refusal(premises_steps(names, stmt, derived_id, premises)) is None <==> (forall|i: int|
            0 <= i < premises.len() ==> (#[trigger] premises[i]).fact_id is Some
                || premises[i].derived_id is Some),
{
    broadcast use group_steps;

    reveal(premises_steps);
    reveal(premise_steps);
    let ok = |i: int| premises[i].fact_id is Some || premises[i].derived_id is Some;
    let f = premise_at(names, stmt, derived_id, premises);
    lemma_each_refusal(premises.len(), f, ok);
    if refusal(each(premises.len(), f)) is None {
        assert forall|i: int| 0 <= i < premises.len() implies (#[trigger] premises[i]).fact_id is Some
            || premises[i].derived_id is Some by {
            assert(ok(i));
        }
    }
}

/// Exactly which derived facts are written whole.
pub proof fn derived_is_written_iff(names: Names, vocab: Vocabulary, d: ExportDerived)
    ensures
        refusal(derived_steps(names, vocab, d)) is None <==> derived_writable(names, vocab, d),
{
    broadcast use {group_steps, group_cells};

    derived_barriers(names, d);
    lemma_premises(names, names.derived_iri(d.id), d.id, d.premises@);
}

} // verus!
