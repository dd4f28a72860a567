//! What a refusal says: which reference of which row it names, and what is wrong with it.
use crate::cells::{
    class_ref_at, class_ref_steps, class_refs_steps, inside_if_steps, inside_steps,
    opt_class_ref_steps, opt_relation_ref_steps, outside_message, relation_ref_at,
    relation_ref_steps, relation_refs_steps, unexported_message, unresolved_message,
};
use crate::emit_derived::{
    derived_barrier_steps, derived_steps, premise_at, premise_steps, premises_steps,
};
use crate::emit_fact::{
    fact_barrier_steps, fact_claim_steps, fact_record_steps, fact_steps, mention_at,
    mention_resolution_steps, mention_words_steps, mentions_steps, properties_steps, property_at,
    property_steps, property_value_steps, qualifier_at, qualifier_steps, qualifiers_steps,
};
use crate::emit_ontology::{axiom_steps, class_steps, relation_steps, rule_steps};
use crate::emit_rules::{
    attribute_rule_steps, conclusion_steps, condition_at, condition_steps, conditions_steps,
    formula_steps, operand_steps, read_at, reads_steps,
};
use crate::emit_sources::{chunk_steps, docversion_steps, entity_steps, evidence_steps};
use crate::expr::expr_ids;
use crate::json::JsonView;
use crate::laws_refusal::lemma_stop_refuses;
use crate::laws_whole::group_cells;
use crate::names::Names;
use crate::rows::{
    ExportAttributeRule, ExportChunk, ExportClass, ExportDerived, ExportDocumentVersion,
    ExportEntity, ExportEvidence, ExportFact, ExportPremise, ExportRelation, ExportRule,
    ExportRuleCondition, ExportStatementQualifier, ExportTimeMention, FactQualifier,
};
use crate::steps::{each, group_steps, refusal, Step};
use crate::time::DateTime;
use crate::uuid::Uuid;
use crate::vocabulary::Vocabulary;
use vstd::prelude::*;

verus! {

/// A refusal names the reference, and says whether it leaves the knowledge base, points at a row that
/// is not exported, or cannot be resolved.
pub proof fn refusals_name_the_reference(edge: Seq<char>)
    ensures
        outside_message(edge) == "export refused: "@ + edge + " points outside the knowledge base"@,
        unexported_message(edge) == "export refused: "@ + edge
            + " points at a row outside this KB's exported set"@,
        unresolved_message(edge) == "export refused: "@ + edge
            + " cannot be resolved in this KB's vocabulary"@,
{
}

// ---- Pieces ----

/// A list of lists of steps stops exactly if one of them does, and says what that one says.
pub proof fn lemma_each_stop(n: nat, f: spec_fn(int) -> Seq<Step>)
    ensures
        refusal(each(n, f)) is None <==> (forall|i: int|
            0 <= i < n ==> (#[trigger] refusal(f(i))) is None),
        refusal(each(n, f)) is Some ==> exists|i: int|
            0 <= i < n && #[trigger] refusal(f(i)) == refusal(each(n, f)),
    decreases n,
{
    broadcast use group_steps;

    if n > 0 {
        let k = (n - 1) as nat;
        lemma_each_stop(k, f);
        assert(each(n, f) == each(k, f) + f(n - 1));
        if refusal(each(k, f)) is Some {
            let i = choose|i: int| 0 <= i < k && #[trigger] refusal(f(i)) == refusal(each(k, f));
            assert(0 <= i < n && refusal(f(i)) == refusal(each(n, f)));
        } else if refusal(f(n - 1)) is Some {
            assert(0 <= n - 1 < n && refusal(f(n - 1)) == refusal(each(n, f)));
        }
    }
}

broadcast proof fn lemma_inside_message(names: Names, ref_kb: Option<Uuid>, edge: Seq<char>)
    ensures
        #[trigger] refusal(inside_steps(names, ref_kb, edge)) == (if ref_kb == Some(names.kb()) {
            None
        } else {
            Some(outside_message(edge))
        }),
{
    reveal(inside_steps);
    lemma_stop_refuses(ref_kb != Some(names.kb()), outside_message(edge));
}

broadcast proof fn lemma_inside_if_message(
    names: Names,
    id: Option<Uuid>,
    ref_kb: Option<Uuid>,
    edge: Seq<char>,
)
    ensures
        #[trigger] refusal(inside_if_steps(names, id, ref_kb, edge)) == (if id is Some && ref_kb
            != Some(names.kb()) {
            Some(outside_message(edge))
        } else {
            None
        }),
{
    broadcast use group_steps;

    reveal(inside_if_steps);
    lemma_inside_message(names, ref_kb, edge);
}

broadcast proof fn lemma_class_ref_message(
    vocab: Vocabulary,
    s: Seq<char>,
    p: Seq<char>,
    id: Uuid,
    edge: Seq<char>,
)
    ensures
        #[trigger] refusal(class_ref_steps(vocab, s, p, id, edge)) == (if vocab.class_iri(
            id,
        ) is Some {
            None
        } else {
            Some(unresolved_message(edge))
        }),
{
    broadcast use group_steps;

    reveal(class_ref_steps);
}

broadcast proof fn lemma_relation_ref_message(
    vocab: Vocabulary,
    s: Seq<char>,
    p: Seq<char>,
    id: Uuid,
    edge: Seq<char>,
)
    ensures
        #[trigger] refusal(relation_ref_steps(vocab, s, p, id, edge)) == (if vocab.relation_iri(
            id,
        ) is Some {
            None
        } else {
            Some(unresolved_message(edge))
        }),
{
    broadcast use group_steps;

    reveal(relation_ref_steps);
}

broadcast proof fn lemma_opt_class_ref_message(
    vocab: Vocabulary,
    s: Seq<char>,
    p: Seq<char>,
    id: Option<Uuid>,
    edge: Seq<char>,
)
    ensures
        #[trigger] refusal(opt_class_ref_steps(vocab, s, p, id, edge)) == (if id is Some
            && vocab.class_iri(id->0) is None {
            Some(unresolved_message(edge))
        } else {
            None
        }),
{
    broadcast use {group_steps, lemma_class_ref_message};

    reveal(opt_class_ref_steps);
}

broadcast proof fn lemma_opt_relation_ref_message(
    vocab: Vocabulary,
    s: Seq<char>,
    p: Seq<char>,
    id: Option<Uuid>,
    edge: Seq<char>,
)
    ensures
        #[trigger] refusal(opt_relation_ref_steps(vocab, s, p, id, edge)) == (if id is Some
            && vocab.relation_iri(id->0) is None {
            Some(unresolved_message(edge))
        } else {
            None
        }),
{
    broadcast use {group_steps, lemma_relation_ref_message};

    reveal(opt_relation_ref_steps);
}

broadcast proof fn lemma_class_refs_message(
    vocab: Vocabulary,
    s: Seq<char>,
    p: Seq<char>,
    ids: Seq<Uuid>,
    edge: Seq<char>,
)
    ensures
        #[trigger] refusal(class_refs_steps(vocab, s, p, ids, edge)) == (if exists|i: int|
            0 <= i < ids.len() && vocab.class_iri(#[trigger] ids[i]) is None {
            Some(unresolved_message(edge))
        } else {
            None
        }),
{
    broadcast use lemma_class_ref_message;

    reveal(class_refs_steps);
    let f = class_ref_at(vocab, s, p, ids, edge);
    lemma_each_stop(ids.len(), f);
    if exists|i: int| 0 <= i < ids.len() && vocab.class_iri(#[trigger] ids[i]) is None {
        let i = choose|i: int| 0 <= i < ids.len() && vocab.class_iri(#[trigger] ids[i]) is None;
        assert(refusal(f(i)) is Some);
    }
}

broadcast proof fn lemma_relation_refs_message(
    vocab: Vocabulary,
    s: Seq<char>,
    p: Seq<char>,
    ids: Seq<Uuid>,
    edge: Seq<char>,
)
    ensures
        #[trigger] refusal(relation_refs_steps(vocab, s, p, ids, edge)) == (if exists|i: int|
            0 <= i < ids.len() && vocab.relation_iri(#[trigger] ids[i]) is None {
            Some(unresolved_message(edge))
        } else {
            None
        }),
{
    broadcast use lemma_relation_ref_message;

    reveal(relation_refs_steps);
    let f = relation_ref_at(vocab, s, p, ids, edge);
    lemma_each_stop(ids.len(), f);
    if exists|i: int| 0 <= i < ids.len() && vocab.relation_iri(#[trigger] ids[i]) is None {
        let i = choose|i: int| 0 <= i < ids.len() && vocab.relation_iri(#[trigger] ids[i]) is None;
        assert(refusal(f(i)) is Some);
    }
}

broadcast proof fn lemma_reads_message(
    vocab: Vocabulary,
    node: Seq<char>,
    formula: JsonView,
    edge: Seq<char>,
)
    ensures
        #[trigger] refusal(reads_steps(vocab, node, formula, edge)) == (if exists|i: int|
            0 <= i < expr_ids(formula).len() && (#[trigger] expr_ids(formula)[i] is None
                || vocab.relation_iri(expr_ids(formula)[i]->0) is None) {
            Some(unresolved_message(edge))
        } else {
            None
        }),
{
    broadcast use {group_steps, lemma_relation_ref_message};

    reveal(reads_steps);
    let ids = expr_ids(formula);
    let f = read_at(vocab, node, ids, edge);
    lemma_each_stop(ids.len(), f);
    if exists|i: int|
        0 <= i < ids.len() && (#[trigger] ids[i] is None || vocab.relation_iri(ids[i]->0) is None) {
        let i = choose|i: int|
            0 <= i < ids.len() && (#[trigger] ids[i] is None || vocab.relation_iri(ids[i]->0) is None);
        lemma_first_read(ids, i);
        let j = choose|j: int| 0 <= j <= i && ids[j] == ids[i] && !#[trigger] ids.take(j).contains(ids[j]);
        assert(refusal(f(j)) is Some);
    }
}

proof fn lemma_first_read(ids: Seq<Option<Uuid>>, i: int)
    requires
        0 <= i < ids.len(),
    ensures
        exists|j: int| 0 <= j <= i && ids[j] == ids[i] && !#[trigger] ids.take(j).contains(ids[j]),
    decreases i,
{
    if ids.take(i).contains(ids[i]) {
        let k = choose|k: int| 0 <= k < i && ids.take(i)[k] == ids[i];
        assert(ids[k] == ids[i]);
        lemma_first_read(ids, k);
        let j = choose|j: int| 0 <= j <= k && ids[j] == ids[k] && !#[trigger] ids.take(j).contains(ids[j]);
        assert(0 <= j <= i && ids[j] == ids[i] && !ids.take(j).contains(ids[j]));
    } else {
        assert(0 <= i <= i && ids[i] == ids[i] && !ids.take(i).contains(ids[i]));
    }
}

broadcast group group_messages {
    group_steps,
    group_cells,
    lemma_stop_refuses,
    lemma_inside_message,
    lemma_inside_if_message,
    lemma_class_ref_message,
    lemma_relation_ref_message,
    lemma_opt_class_ref_message,
    lemma_opt_relation_ref_message,
    lemma_class_refs_message,
    lemma_relation_refs_message,
    lemma_reads_message,
}

// ---- Rows ----

/// A class is refused for a parent, primary or not, or else for a disjoint class that the vocabulary
/// does not know.
pub proof fn class_refusal_says_why(vocab: Vocabulary, c: ExportClass)
    requires
        vocab.class_iri(c.id) is Some,
    ensures
        refusal(class_steps(vocab, c)) == (if (exists|i: int|
            0 <= i < c.parents@.len() && vocab.class_iri(#[trigger] c.parents@[i]) is None) || (
        exists|i: int|
            0 <= i < c.primary_parents@.len() && vocab.class_iri(
                #[trigger] c.primary_parents@[i],
            ) is None) {
            Some(unresolved_message("class.parent"@))
        } else if exists|i: int|
            0 <= i < c.disjoint@.len() && vocab.class_iri(#[trigger] c.disjoint@[i]) is None {
            Some(unresolved_message("class.disjoint"@))
        } else {
            None
        }),
{
    broadcast use group_messages;

}

/// A relation is refused for the first of these that the vocabulary does not know: its inverse, the
/// broader relation, a property of its edges, a domain, a range.
pub proof fn relation_refusal_says_why(vocab: Vocabulary, r: ExportRelation)
    requires
        vocab.relation_iri(r.id) is Some,
    ensures
        refusal(relation_steps(vocab, r)) == (if r.inverse_of is Some && vocab.relation_iri(
            r.inverse_of->0,
        ) is None {
            Some(unresolved_message("relation.inverse"@))
        } else if r.sub_property_of is Some && vocab.relation_iri(r.sub_property_of->0) is None {
            Some(unresolved_message("relation.sub_property"@))
        } else if exists|i: int|
            0 <= i < r.qualifiers@.len() && vocab.relation_iri(#[trigger] r.qualifiers@[i]) is None {
            Some(unresolved_message("relation.qualifier"@))
        } else if exists|i: int|
            0 <= i < r.domains@.len() && vocab.class_iri(#[trigger] r.domains@[i]) is None {
            Some(unresolved_message("relation.domain"@))
        } else if exists|i: int|
            0 <= i < r.ranges@.len() && vocab.class_iri(#[trigger] r.ranges@[i]) is None {
            Some(unresolved_message("relation.range"@))
        } else {
            None
        }),
{
    broadcast use group_messages;

    reveal(axiom_steps);
}

/// An axiom is refused if its relation leaves the knowledge base or is unknown.
pub proof fn rule_refusal_says_why(names: Names, vocab: Vocabulary, r: ExportRule)
    ensures
        refusal(rule_steps(names, vocab, r)) == (if r.predicate_kb != Some(names.kb()) {
            Some(outside_message("rule.predicate"@))
        } else if vocab.relation_iri(r.predicate_id) is None {
            Some(unresolved_message("rule.predicate"@))
        } else {
            None
        }),
{
    broadcast use group_messages;

}

/// An entity is refused if its class is unknown; a passage, a version and a piece of evidence, if what
/// they refer to leaves the knowledge base.
pub proof fn source_refusals_say_why(
    names: Names,
    vocab: Vocabulary,
    e: ExportEntity,
    c: ExportChunk,
    v: ExportDocumentVersion,
    x: ExportEvidence,
)
    ensures
        refusal(entity_steps(names, vocab, e)) == (if e.type_id is Some && vocab.class_iri(
            e.type_id->0,
        ) is None {
            Some(unresolved_message("entity.type"@))
        } else {
            None
        }),
        refusal(chunk_steps(names, c)) == (if c.document_kb != Some(names.kb()) {
            Some(outside_message("chunk.document"@))
        } else {
            None
        }),
        refusal(docversion_steps(names, v)) == (if v.document_kb != Some(names.kb()) {
            Some(outside_message("docversion.document"@))
        } else {
            None
        }),
        refusal(evidence_steps(names, x)) == (if x.chunk_kb != Some(names.kb()) {
            Some(outside_message("evidence.chunk"@))
        } else if x.document_id is Some && x.document_kb != Some(names.kb()) {
            Some(outside_message("evidence.document"@))
        } else {
            None
        }),
{
    broadcast use group_messages;

}

proof fn lemma_condition_message(
    names: Names,
    vocab: Vocabulary,
    rule: Seq<char>,
    c: ExportRuleCondition,
)
    ensures
        refusal(condition_steps(names, vocab, rule, c)) == (if c.predicate_kb != Some(names.kb()) {
            Some(outside_message("condition.predicate"@))
        } else if vocab.relation_iri(c.predicate_id) is None {
            Some(unresolved_message("condition.predicate"@))
        } else if c.operand is Some && c.operand->0@ is Object && exists|i: int|
            0 <= i < expr_ids(c.operand->0@).len() && (#[trigger] expr_ids(
                c.operand->0@,
            )[i] is None || vocab.relation_iri(expr_ids(c.operand->0@)[i]->0) is None) {
            Some(unresolved_message("condition.expr_predicate"@))
        } else {
            None
        }),
{
    broadcast use group_messages;

    reveal(condition_steps);
    reveal(operand_steps);
}

/// A business rule is refused for the first of these: the class that it looks at, the class or the
/// relation that it concludes leaves the knowledge base; one of them is unknown; its formula reads
/// something unknown; and then for what is wrong with one of its conditions.
pub proof fn attribute_rule_refusal_says_why(
    names: Names,
    vocab: Vocabulary,
    r: ExportAttributeRule,
)
    ensures
        ({
            let why = refusal(attribute_rule_steps(names, vocab, r));
            if r.subject_type_kb != Some(names.kb()) {
                why == Some(outside_message("arule.subject_type"@))
            } else if r.conclude_type_id is Some && r.conclude_type_kb != Some(names.kb()) {
                why == Some(outside_message("arule.conclude_type"@))
            } else if r.conclude_predicate_id is Some && r.conclude_predicate_kb != Some(names.kb()) {
                why == Some(outside_message("arule.conclude_predicate"@))
            } else if vocab.class_iri(r.subject_type_id) is None {
                why == Some(unresolved_message("arule.subject_type"@))
            } else if r.conclude_type_id is Some && vocab.class_iri(r.conclude_type_id->0) is None {
                why == Some(unresolved_message("arule.conclude_type"@))
            } else if r.conclude_predicate_id is Some && vocab.relation_iri(
                r.conclude_predicate_id->0,
            ) is None {
                why == Some(unresolved_message("arule.conclude_predicate"@))
            } else if r.conclude_expr is Some && exists|i: int|
                0 <= i < expr_ids(r.conclude_expr->0@).len() && (#[trigger] expr_ids(
                    r.conclude_expr->0@,
                )[i] is None || vocab.relation_iri(expr_ids(r.conclude_expr->0@)[i]->0) is None) {
                why == Some(unresolved_message("arule.expr_predicate"@))
            } else {
                why is Some ==> exists|i: int|
                    #![trigger r.conditions@[i]]
                    0 <= i < r.conditions@.len() && ({
                        let c = r.conditions@[i];
                        ||| c.predicate_kb != Some(names.kb()) && why == Some(
                            outside_message("condition.predicate"@),
                        )
                        ||| vocab.relation_iri(c.predicate_id) is None && why == Some(
                            unresolved_message("condition.predicate"@),
                        )
                        ||| c.operand is Some && c.operand->0@ is Object && why == Some(
                            unresolved_message("condition.expr_predicate"@),
                        )
                    })
            }
        }),
{
    broadcast use group_messages;

    reveal(conclusion_steps);
    reveal(formula_steps);
    reveal(conditions_steps);
    let rule = names.attribute_rule_iri(r.id);
    let f = condition_at(names, vocab, rule, r.conditions@);
    lemma_each_stop(r.conditions@.len(), f);
    assert forall|i: int| 0 <= i < r.conditions@.len() implies (#[trigger] refusal(f(i))) == refusal(
        condition_steps(names, vocab, rule, r.conditions@[i]),
    ) by {}
    if refusal(each(r.conditions@.len(), f)) is Some {
        let i = choose|i: int|
            0 <= i < r.conditions@.len() && #[trigger] refusal(f(i)) == refusal(
                each(r.conditions@.len(), f),
            );
        lemma_condition_message(names, vocab, rule, r.conditions@[i]);
    }
}

// ---- Statements ----

/// A fact is refused for the first of these: its subject, object, relation or the fact that it
/// replaces leaves the knowledge base; its subject or object was merged; a document or a source
/// statement leaves the knowledge base; its relation is unknown; the type of a property of the edge
/// is unknown; and then for the entity of a property or the passage of a time mention.
pub proof fn fact_refusal_says_why(names: Names, vocab: Vocabulary, f: ExportFact, now: DateTime)
    ensures
        ({
            let why = refusal(fact_steps(names, vocab, f, now));
            if f.subject_kb != Some(names.kb()) {
                why == Some(outside_message("fact.subject"@))
            } else if f.object_id is Some && f.object_kb != Some(names.kb()) {
                why == Some(outside_message("fact.object"@))
            } else if f.predicate_id is Some && f.predicate_kb != Some(names.kb()) {
                why == Some(outside_message("fact.predicate"@))
            } else if f.supersedes is Some && f.supersedes_kb != Some(names.kb()) {
                why == Some(outside_message("fact.supersedes"@))
            } else if f.subject_merged {
                why == Some(unexported_message("fact.subject(merged)"@))
            } else if f.object_merged {
                why == Some(unexported_message("fact.object(merged)"@))
            } else if f.foreign_document {
                why == Some(outside_message("evidence.document"@))
            } else if f.foreign_source {
                why == Some(outside_message("fact.source"@))
            } else if f.predicate_id is Some && vocab.relation_iri(f.predicate_id->0) is None {
                why == Some(unresolved_message("fact.predicate"@))
            } else if exists|i: int|
                0 <= i < f.qualifiers@.len() && vocab.relation_iri(
                    (#[trigger] f.qualifiers@[i]).qualifier_type_id,
                ) is None {
                why == Some(unresolved_message("qualifier.type"@))
            } else if exists|i: int|
                0 <= i < f.statement_qualifiers@.len() && (
                #[trigger] f.statement_qualifiers@[i]).value is None
                    && f.statement_qualifiers@[i].entity_id is Some && (
                f.statement_qualifiers@[i].entity_kb != Some(names.kb())
                    || f.statement_qualifiers@[i].entity_merged) {
                exists|i: int|
                    0 <= i < f.statement_qualifiers@.len() && (
                    #[trigger] f.statement_qualifiers@[i]).value is None
                        && f.statement_qualifiers@[i].entity_id is Some && (if
                    f.statement_qualifiers@[i].entity_kb != Some(names.kb()) {
                        why == Some(outside_message("squalifier.entity"@))
                    } else {
                        f.statement_qualifiers@[i].entity_merged && why == Some(
                            unexported_message("squalifier.entity(merged)"@),
                        )
                    })
            } else if exists|i: int|
                0 <= i < f.time_mentions@.len() && (#[trigger] f.time_mentions@[i]).chunk_kb != Some(
                    names.kb(),
                ) {
                why == Some(outside_message("timemention.chunk"@))
            } else {
                why is None
            }
        }),
{
    let stmt = names.fact_iri(f.id);
    lemma_qualifiers_message(names, vocab, stmt, f.qualifiers@);
    lemma_properties_message(names, stmt, f.statement_qualifiers@);
    lemma_mentions_message(names, stmt, f.time_mentions@);
    assert(refusal(fact_claim_steps(names, vocab, f)) is None && refusal(fact_record_steps(names, f)) is None) by {
        broadcast use {group_steps, group_cells};

        reveal(fact_claim_steps);
        reveal(fact_record_steps);
    }
    broadcast use group_messages;

    reveal(fact_barrier_steps);
}

proof fn lemma_qualifiers_message(
    names: Names,
    vocab: Vocabulary,
    stmt: Seq<char>,
    qs: Seq<FactQualifier>,
)
    ensures
        refusal(qualifiers_steps(names, vocab, stmt, qs)) == (if exists|i: int|
            0 <= i < qs.len() && vocab.relation_iri((#[trigger] qs[i]).qualifier_type_id) is None {
            Some(unresolved_message("qualifier.type"@))
        } else {
            None
        }),
{
    broadcast use group_messages;

    reveal(qualifiers_steps);
    reveal(qualifier_steps);
    let f = qualifier_at(names, vocab, stmt, qs);
    lemma_each_stop(qs.len(), f);
    if exists|i: int|
        0 <= i < qs.len() && vocab.relation_iri((#[trigger] qs[i]).qualifier_type_id) is None {
        let i = choose|i: int|
            0 <= i < qs.len() && vocab.relation_iri((#[trigger] qs[i]).qualifier_type_id) is None;
        assert(refusal(f(i)) is Some);
    }
}

proof fn lemma_property_message(
    names: Names,
    stmt: Seq<char>,
    q: ExportStatementQualifier,
    i: nat,
)
    ensures
        refusal(property_steps(names, stmt, q, i)) == (if q.value is None && q.entity_id is Some
            && q.entity_kb != Some(names.kb()) {
            Some(outside_message("squalifier.entity"@))
        } else if q.value is None && q.entity_id is Some && q.entity_merged {
            Some(unexported_message("squalifier.entity(merged)"@))
        } else {
            None
        }),
{
    broadcast use group_messages;

    reveal(property_steps);
    reveal(property_value_steps);
}

proof fn lemma_properties_message(
    names: Names,
    stmt: Seq<char>,
    qs: Seq<ExportStatementQualifier>,
)
    ensures
        ({
            let why = refusal(properties_steps(names, stmt, qs));
            if exists|i: int|
                0 <= i < qs.len() && (#[trigger] qs[i]).value is None && qs[i].entity_id is Some && (
                qs[i].entity_kb != Some(names.kb()) || qs[i].entity_merged) {
                why is Some && exists|i: int|
                    0 <= i < qs.len() && (#[trigger] qs[i]).value is None && qs[i].entity_id is Some
                        && (if qs[i].entity_kb != Some(names.kb()) {
                        why == Some(outside_message("squalifier.entity"@))
                    } else {
                        qs[i].entity_merged && why == Some(
                            unexported_message("squalifier.entity(merged)"@),
                        )
                    })
            } else {
                why is None
            }
        }),
{
    reveal(properties_steps);
    let f = property_at(names, stmt, qs);
    lemma_each_stop(qs.len(), f);
    assert forall|i: int| 0 <= i < qs.len() implies (#[trigger] refusal(f(i))) == (if
    qs[i].value is None && qs[i].entity_id is Some && qs[i].entity_kb != Some(names.kb()) {
        Some(outside_message("squalifier.entity"@))
    } else if qs[i].value is None && qs[i].entity_id is Some && qs[i].entity_merged {
        Some(unexported_message("squalifier.entity(merged)"@))
    } else {
        None
    }) by {
        lemma_property_message(names, stmt, qs[i], i as nat);
    }
    if exists|i: int|
        0 <= i < qs.len() && (#[trigger] qs[i]).value is None && qs[i].entity_id is Some && (
        qs[i].entity_kb != Some(names.kb()) || qs[i].entity_merged) {
        let i = choose|i: int|
            0 <= i < qs.len() && (#[trigger] qs[i]).value is None && qs[i].entity_id is Some && (
            qs[i].entity_kb != Some(names.kb()) || qs[i].entity_merged);
        assert(refusal(f(i)) is Some);
        let j = choose|j: int|
            0 <= j < qs.len() && #[trigger] refusal(f(j)) == refusal(each(qs.len(), f));
        assert(qs[j].value is None);
    }
}

proof fn lemma_mentions_message(names: Names, stmt: Seq<char>, ms: Seq<ExportTimeMention>)
    ensures
        refusal(mentions_steps(names, stmt, ms)) == (if exists|i: int|
            0 <= i < ms.len() && (#[trigger] ms[i]).chunk_kb != Some(names.kb()) {
            Some(outside_message("timemention.chunk"@))
        } else {
            None
        }),
{
    broadcast use group_messages;

    reveal(mentions_steps);
    reveal(mention_words_steps);
    reveal(mention_resolution_steps);
    let f = mention_at(names, stmt, ms);
    lemma_each_stop(ms.len(), f);
    if exists|i: int| 0 <= i < ms.len() && (#[trigger] ms[i]).chunk_kb != Some(names.kb()) {
        let i = choose|i: int| 0 <= i < ms.len() && (#[trigger] ms[i]).chunk_kb != Some(names.kb());
        assert(refusal(f(i)) is Some);
    }
}

/// A derived fact is refused for the first of these: its subject, object, relation or rule leaves the
/// knowledge base; its subject or object was merged; a premise leaves the knowledge base; it has no
/// rule; its relation is unknown; a premise is no fact at all.
pub proof fn derived_refusal_says_why(names: Names, vocab: Vocabulary, d: ExportDerived)
    ensures
        refusal(derived_steps(names, vocab, d)) == (if d.subject_kb != Some(names.kb()) {
            Some(outside_message("derived.subject"@))
        } else if d.object_id is Some && d.object_kb != Some(names.kb()) {
            Some(outside_message("derived.object"@))
        } else if d.predicate_kb != Some(names.kb()) {
            Some(outside_message("derived.predicate"@))
        } else if d.rule_id is Some && d.rule_kb != Some(names.kb()) {
            Some(outside_message("derived.rule"@))
        } else if d.attribute_rule_id is Some && d.attribute_rule_kb != Some(names.kb()) {
            Some(outside_message("derived.attribute_rule"@))
        } else if d.subject_merged {
            Some(unexported_message("derived.subject(merged)"@))
        } else if d.object_merged {
            Some(unexported_message("derived.object(merged)"@))
        } else if d.foreign_fact_premise {
            Some(outside_message("derivation.premise_fact"@))
        } else if d.foreign_derived_premise {
            Some(outside_message("derivation.premise_derived"@))
        } else if d.rule_id is None && d.attribute_rule_id is None {
            Some(unresolved_message("derived.rule"@))
        } else if vocab.relation_iri(d.predicate_id) is None {
            Some(unresolved_message("derived.predicate"@))
        } else if exists|i: int|
            0 <= i < d.premises@.len() && (#[trigger] d.premises@[i]).fact_id is None
                && d.premises@[i].derived_id is None {
            Some(unresolved_message("derivation.premise"@))
        } else {
            None
        }),
{
    lemma_premises_message(names, names.derived_iri(d.id), d.id, d.premises@);
    broadcast use group_messages;

    reveal(derived_barrier_steps);
}

proof fn lemma_premises_message(
    names: Names,
    stmt: Seq<char>,
    derived_id: Uuid,
    ps: Seq<ExportPremise>,
)
    ensures
        refusal(premises_steps(names, stmt, derived_id, ps)) == (if exists|i: int|
            0 <= i < ps.len() && (#[trigger] ps[i]).fact_id is None && ps[i].derived_id is None {
            Some(unresolved_message("derivation.premise"@))
        } else {
            None
        }),
{
    broadcast use group_messages;

    reveal(premises_steps);
    reveal(premise_steps);
    let f = premise_at(names, stmt, derived_id, ps);
    lemma_each_stop(ps.len(), f);
    if exists|i: int|
        0 <= i < ps.len() && (#[trigger] ps[i]).fact_id is None && ps[i].derived_id is None {
        let i = choose|i: int|
            0 <= i < ps.len() && (#[trigger] ps[i]).fact_id is None && ps[i].derived_id is None;
        assert(refusal(f(i)) is Some);
    }
}

} // verus!
