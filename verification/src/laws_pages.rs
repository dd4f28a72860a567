//! What holds of pages: a page passes exactly if each of its rows does, and what passed is not
//! refused later.
use crate::cells::{
    class_ref_at, class_ref_steps, class_refs_steps, opt_relation_ref_steps, relation_ref_at,
    relation_ref_steps, relation_refs_steps,
};
use crate::emit_derived::derived_steps;
use crate::emit_fact::fact_steps;
use crate::emit_ontology::{class_steps, relation_steps, rule_steps};
use crate::emit_rules::attribute_rule_steps;
use crate::emit_sources::{chunk_steps, docversion_steps, entity_steps, evidence_steps};
use crate::expr::expr_ids;
use crate::groups::{belonging, first_of, share};
use crate::integrity::{verdict, ViolationView};
use crate::laws_refusal::readable;
use crate::laws_whole::{
    attribute_rule_is_written_iff, class_is_written_iff, condition_writable, derived_is_written_iff,
    entity_is_written_iff, fact_is_written_iff, knows_class, knows_classes, knows_relation,
    property_writable, relation_is_written_iff, rule_is_written_iff, sources_are_written_iff,
};
use crate::names::Names;
use crate::pages::{
    chunk_notes, class_ids, class_notes, classes_violations, docversion_notes, entity_notes,
    evidence_notes, id_set, note_each, relation_ids, relation_notes, relations_violations,
    rule_notes, unknown_count, unknown_ref,
};
use crate::rows::{
    ExportAttributeRule, ExportChunk, ExportClass, ExportDerived, ExportDocumentVersion,
    ExportEntity, ExportEvidence, ExportFact, ExportRelation, ExportRule, ExportRuleCondition,
    ExportStatementQualifier, ExportTimeMention,
};
use crate::rule_pages::{
    arule_ids, arule_notes, arules_violations, bad_read, bad_reads, condition_key, condition_notes,
    condition_reads, conditioned, kbs_of, rule_reads,
};
use crate::statement_pages::{
    completed, derived_ids, derived_merged_notes, derived_notes, deriveds_verdict, fact_ids,
    fact_merged_notes, fact_notes, facts_verdict, mention_key, mention_notes, mentions_verdict,
    premise_key, premise_of, properties_verdict, property_key, property_merged_notes,
    property_notes, proved, qualifier_key, qualifier_merged_notes, qualifier_notes,
    qualifiers_verdict, ExportPremiseRow, ExportQualifierRow,
};
use crate::steps::{each, refusal, Step};
use crate::term::{rdfs_iri, utopia_iri, NamedNode};
use crate::text::opt_text;
use crate::time::DateTime;
use crate::uuid::Uuid;
use crate::vocabulary::{class_in, relation_in, vocabulary_of, RelationView, Vocabulary};
use vstd::prelude::*;

verus! {

// ---- A page passes exactly if its rows do ----

/// A way to note violations that notes none exactly for a clean row.
pub open spec fn notes_unless<T>(
    f: spec_fn(Seq<ViolationView>, T) -> Seq<ViolationView>,
    clean: spec_fn(T) -> bool,
) -> bool {
    forall|vs: Seq<ViolationView>, row: T|
        (#[trigger] f(vs, row)).len() >= vs.len() && (f(vs, row).len() == vs.len() <==> clean(row))
}

proof fn lemma_notes_none<T>(
    vs: Seq<ViolationView>,
    rows: Seq<T>,
    f: spec_fn(Seq<ViolationView>, T) -> Seq<ViolationView>,
    clean: spec_fn(T) -> bool,
)
    requires
        notes_unless(f, clean),
    ensures
        note_each(vs, rows, f).len() >= vs.len(),
        note_each(vs, rows, f).len() == vs.len() <==> (forall|i: int|
            0 <= i < rows.len() ==> clean(#[trigger] rows[i])),
    decreases rows.len(),
{
    if rows.len() > 0 {
        let before = rows.drop_last();
        lemma_notes_none(vs, before, f, clean);
        let n = note_each(vs, before, f);
        assert(f(n, rows.last()).len() >= n.len());
        if forall|i: int| 0 <= i < rows.len() ==> clean(#[trigger] rows[i]) {
            assert forall|i: int| 0 <= i < before.len() implies clean(#[trigger] before[i]) by {
                assert(clean(rows[i]));
            }
            assert(clean(rows[rows.len() - 1]));
        }
        if note_each(vs, rows, f).len() == vs.len() {
            assert forall|i: int| 0 <= i < rows.len() implies clean(#[trigger] rows[i]) by {
                if i < before.len() {
                    assert(clean(before[i]));
                }
            }
        }
    }
}

/// A fact whose references all stay inside the knowledge base and point at exported rows.
pub open spec fn fact_clean(kb_id: Uuid, f: ExportFact) -> bool {
    &&& f.subject_kb == Some(kb_id)
    &&& (f.object_id is Some ==> f.object_kb == Some(kb_id))
    &&& (f.predicate_id is Some ==> f.predicate_kb == Some(kb_id))
    &&& (f.supersedes is Some ==> f.supersedes_kb == Some(kb_id))
    &&& !f.foreign_source
    &&& !f.foreign_document
    &&& !f.subject_merged
    &&& (f.object_id is Some ==> !f.object_merged)
}

/// A page of facts passes exactly if all its facts are clean.
pub proof fn facts_pass_iff_clean(facts: Seq<ExportFact>, kb_id: Uuid)
    ensures
        facts_verdict(facts, kb_id) is None <==> (forall|i: int|
            0 <= i < facts.len() ==> fact_clean(kb_id, #[trigger] facts[i])),
{
    let c1 = |f: ExportFact|
        f.subject_kb == Some(kb_id) && (f.object_id is Some ==> f.object_kb == Some(kb_id)) && (
        f.predicate_id is Some ==> f.predicate_kb == Some(kb_id)) && (f.supersedes is Some
            ==> f.supersedes_kb == Some(kb_id)) && !f.foreign_source && !f.foreign_document;
    let c2 = |f: ExportFact| !f.subject_merged && (f.object_id is Some ==> !f.object_merged);
    lemma_notes_none(Seq::empty(), facts, fact_notes(kb_id), c1);
    lemma_notes_none(Seq::empty(), facts, fact_merged_notes(), c2);
    if facts_verdict(facts, kb_id) is None {
        assert forall|i: int| 0 <= i < facts.len() implies fact_clean(kb_id, #[trigger] facts[i]) by {
            assert(c1(facts[i]) && c2(facts[i]));
        }
    }
    if forall|i: int| 0 <= i < facts.len() ==> fact_clean(kb_id, #[trigger] facts[i]) {
        assert forall|i: int| 0 <= i < facts.len() implies c1(#[trigger] facts[i]) by {
            assert(fact_clean(kb_id, facts[i]));
        }
        assert forall|i: int| 0 <= i < facts.len() implies c2(#[trigger] facts[i]) by {
            assert(fact_clean(kb_id, facts[i]));
        }
    }
}

/// A derived fact whose references all stay inside the knowledge base and point at exported rows.
pub open spec fn derived_clean(kb_id: Uuid, d: ExportDerived) -> bool {
    &&& d.subject_kb == Some(kb_id)
    &&& (d.object_id is Some ==> d.object_kb == Some(kb_id))
    &&& d.predicate_kb == Some(kb_id)
    &&& (d.rule_id is Some ==> d.rule_kb == Some(kb_id))
    &&& (d.attribute_rule_id is Some ==> d.attribute_rule_kb == Some(kb_id))
    &&& !d.foreign_fact_premise
    &&& !d.foreign_derived_premise
    &&& !d.subject_merged
    &&& (d.object_id is Some ==> !d.object_merged)
}

/// A page of derived facts passes exactly if all its facts are clean.
pub proof fn derived_pass_iff_clean(page: Seq<ExportDerived>, kb_id: Uuid)
    ensures
        deriveds_verdict(page, kb_id) is None <==> (forall|i: int|
            0 <= i < page.len() ==> derived_clean(kb_id, #[trigger] page[i])),
{
    let c1 = |d: ExportDerived|
        d.subject_kb == Some(kb_id) && (d.object_id is Some ==> d.object_kb == Some(kb_id))
            && d.predicate_kb == Some(kb_id) && (d.rule_id is Some ==> d.rule_kb == Some(kb_id)) && (
        d.attribute_rule_id is Some ==> d.attribute_rule_kb == Some(kb_id))
            && !d.foreign_fact_premise && !d.foreign_derived_premise;
    let c2 = |d: ExportDerived| !d.subject_merged && (d.object_id is Some ==> !d.object_merged);
    lemma_notes_none(Seq::empty(), page, derived_notes(kb_id), c1);
    lemma_notes_none(Seq::empty(), page, derived_merged_notes(), c2);
    if deriveds_verdict(page, kb_id) is None {
        assert forall|i: int| 0 <= i < page.len() implies derived_clean(kb_id, #[trigger] page[i]) by {
            assert(c1(page[i]) && c2(page[i]));
        }
    }
    if forall|i: int| 0 <= i < page.len() ==> derived_clean(kb_id, #[trigger] page[i]) {
        assert forall|i: int| 0 <= i < page.len() implies c1(#[trigger] page[i]) by {
            assert(derived_clean(kb_id, page[i]));
        }
        assert forall|i: int| 0 <= i < page.len() implies c2(#[trigger] page[i]) by {
            assert(derived_clean(kb_id, page[i]));
        }
    }
}

/// The other pages pass exactly if the references of all their rows stay inside the knowledge base.
pub proof fn pages_pass_iff_clean(
    kb_id: Uuid,
    rules: Seq<ExportRule>,
    entities: Seq<ExportEntity>,
    versions: Seq<ExportDocumentVersion>,
    chunks: Seq<ExportChunk>,
    evidence: Seq<ExportEvidence>,
)
    ensures
        verdict(note_each(Seq::empty(), rules, rule_notes(kb_id)), Seq::empty()) is None <==> (forall|
            i: int,
        |
            0 <= i < rules.len() ==> (#[trigger] rules[i]).predicate_kb == Some(kb_id)),
        verdict(note_each(Seq::empty(), entities, entity_notes(kb_id)), Seq::empty()) is None <==> (
        forall|i: int|
            0 <= i < entities.len() ==> ((#[trigger] entities[i]).type_id is Some
                ==> entities[i].type_kb == Some(kb_id))),
        verdict(note_each(Seq::empty(), versions, docversion_notes(kb_id)), Seq::empty()) is None <==> (
        forall|i: int|
            0 <= i < versions.len() ==> (#[trigger] versions[i]).document_kb == Some(kb_id)),
        verdict(note_each(Seq::empty(), chunks, chunk_notes(kb_id)), Seq::empty()) is None <==> (
        forall|i: int| 0 <= i < chunks.len() ==> (#[trigger] chunks[i]).document_kb == Some(kb_id)),
        verdict(note_each(Seq::empty(), evidence, evidence_notes(kb_id)), Seq::empty()) is None <==> (
        forall|i: int|
            0 <= i < evidence.len() ==> (#[trigger] evidence[i]).chunk_kb == Some(kb_id) && (
            evidence[i].document_id is Some ==> evidence[i].document_kb == Some(kb_id))),
{
    lemma_notes_none(
        Seq::empty(),
        rules,
        rule_notes(kb_id),
        |r: ExportRule| r.predicate_kb == Some(kb_id),
    );
    lemma_notes_none(
        Seq::empty(),
        entities,
        entity_notes(kb_id),
        |e: ExportEntity| e.type_id is Some ==> e.type_kb == Some(kb_id),
    );
    lemma_notes_none(
        Seq::empty(),
        versions,
        docversion_notes(kb_id),
        |v: ExportDocumentVersion| v.document_kb == Some(kb_id),
    );
    lemma_notes_none(
        Seq::empty(),
        chunks,
        chunk_notes(kb_id),
        |c: ExportChunk| c.document_kb == Some(kb_id),
    );
    lemma_notes_none(
        Seq::empty(),
        evidence,
        evidence_notes(kb_id),
        |e: ExportEvidence|
            e.chunk_kb == Some(kb_id) && (e.document_id is Some ==> e.document_kb == Some(kb_id)),
    );
}

/// The rows that belong to facts pass exactly if their references stay inside the knowledge base and
/// point at exported rows.
pub proof fn parts_pass_iff_clean(
    kb_id: Uuid,
    qualifiers: Seq<ExportQualifierRow>,
    properties: Seq<ExportStatementQualifier>,
    mentions: Seq<ExportTimeMention>,
)
    ensures
        qualifiers_verdict(qualifiers, kb_id) is None <==> (forall|i: int|
            0 <= i < qualifiers.len() ==> (#[trigger] qualifiers[i]).type_kb == Some(kb_id) && (
            qualifiers[i].entity_id is Some ==> qualifiers[i].entity_kb == Some(kb_id)
                && !qualifiers[i].entity_merged)),
        properties_verdict(properties, kb_id) is None <==> (forall|i: int|
            0 <= i < properties.len() ==> ((#[trigger] properties[i]).entity_id is Some
                ==> properties[i].entity_kb == Some(kb_id) && !properties[i].entity_merged)),
        mentions_verdict(mentions, kb_id) is None <==> (forall|i: int|
            0 <= i < mentions.len() ==> (#[trigger] mentions[i]).kb_id == kb_id
                && mentions[i].chunk_kb == Some(kb_id)),
{
    let q1 = |r: ExportQualifierRow|
        r.type_kb == Some(kb_id) && (r.entity_id is Some ==> r.entity_kb == Some(kb_id));
    let q2 = |r: ExportQualifierRow| r.entity_id is Some ==> !r.entity_merged;
    lemma_notes_none(Seq::empty(), qualifiers, qualifier_notes(kb_id), q1);
    lemma_notes_none(Seq::empty(), qualifiers, qualifier_merged_notes(), q2);
    assert((forall|i: int|
        0 <= i < qualifiers.len() ==> (#[trigger] qualifiers[i]).type_kb == Some(kb_id) && (
        qualifiers[i].entity_id is Some ==> qualifiers[i].entity_kb == Some(kb_id)
            && !qualifiers[i].entity_merged)) <==> (forall|i: int|
        0 <= i < qualifiers.len() ==> q1(#[trigger] qualifiers[i])) && (forall|i: int|
        0 <= i < qualifiers.len() ==> q2(#[trigger] qualifiers[i])));
    let p1 = |r: ExportStatementQualifier| r.entity_id is Some ==> r.entity_kb == Some(kb_id);
    let p2 = |r: ExportStatementQualifier| r.entity_id is Some ==> !r.entity_merged;
    lemma_notes_none(Seq::empty(), properties, property_notes(kb_id), p1);
    lemma_notes_none(Seq::empty(), properties, property_merged_notes(), p2);
    assert((forall|i: int|
        0 <= i < properties.len() ==> ((#[trigger] properties[i]).entity_id is Some
            ==> properties[i].entity_kb == Some(kb_id) && !properties[i].entity_merged)) <==> (forall|
        i: int,
    |
        0 <= i < properties.len() ==> p1(#[trigger] properties[i])) && (forall|i: int|
        0 <= i < properties.len() ==> p2(#[trigger] properties[i])));
    lemma_notes_none(
        Seq::empty(),
        mentions,
        mention_notes(kb_id),
        |m: ExportTimeMention| m.kb_id == kb_id && m.chunk_kb == Some(kb_id),
    );
}

proof fn lemma_unknown_count(known: Set<u128>, ids: Seq<Uuid>)
    ensures
        unknown_count(known, ids) == 0 <==> (forall|i: int|
            0 <= i < ids.len() ==> known.contains((#[trigger] ids[i]).value)),
    decreases ids.len(),
{
    if ids.len() > 0 {
        let before = ids.drop_last();
        lemma_unknown_count(known, before);
        if forall|i: int| 0 <= i < ids.len() ==> known.contains((#[trigger] ids[i]).value) {
            assert forall|i: int| 0 <= i < before.len() implies known.contains(
                (#[trigger] before[i]).value,
            ) by {
                assert(known.contains(ids[i].value));
            }
            assert(known.contains(ids[ids.len() - 1].value));
        }
        if unknown_count(known, ids) == 0 {
            assert forall|i: int| 0 <= i < ids.len() implies known.contains(
                (#[trigger] ids[i]).value,
            ) by {
                if i < before.len() {
                    assert(known.contains(before[i].value));
                }
            }
        }
    }
}

/// All identifiers of a list are known.
pub open spec fn all_known(known: Set<u128>, ids: Seq<Uuid>) -> bool {
    forall|i: int| 0 <= i < ids.len() ==> known.contains((#[trigger] ids[i]).value)
}

/// The classes of a knowledge base pass exactly if their parents and disjoint classes are among
/// them.
pub proof fn classes_pass_iff_closed(classes: Seq<ExportClass>)
    ensures
        verdict(classes_violations(classes), Seq::empty()) is None <==> (forall|i: int|
            0 <= i < classes.len() ==> all_known(
                class_ids(classes),
                (#[trigger] classes[i]).parents@,
            ) && all_known(class_ids(classes), classes[i].disjoint@)),
{
    let own = class_ids(classes);
    let clean = |c: ExportClass| all_known(own, c.parents@) && all_known(own, c.disjoint@);
    let f = class_notes(own);
    assert forall|vs: Seq<ViolationView>, c: ExportClass|
        (#[trigger] f(vs, c)).len() >= vs.len() && (f(vs, c).len() == vs.len() <==> clean(c)) by {
        lemma_unknown_count(own, c.parents@);
        lemma_unknown_count(own, c.disjoint@);
    }
    lemma_notes_none(Seq::empty(), classes, f, clean);
}

/// The relations of a knowledge base pass exactly if their domains and ranges are among its classes,
/// and the relations that they name are among them.
pub proof fn relations_pass_iff_closed(relations: Seq<ExportRelation>, own_types: Seq<Uuid>)
    ensures
        verdict(relations_violations(relations, own_types), Seq::empty()) is None <==> (forall|i: int|
            0 <= i < relations.len() ==> relation_closed(
                id_set(own_types),
                relation_ids(relations),
                #[trigger] relations[i],
            )),
{
    let types = id_set(own_types);
    let own = relation_ids(relations);
    let clean = |r: ExportRelation| relation_closed(types, own, r);
    let f = relation_notes(types, own);
    assert forall|vs: Seq<ViolationView>, r: ExportRelation|
        (#[trigger] f(vs, r)).len() >= vs.len() && (f(vs, r).len() == vs.len() <==> clean(r)) by {
        lemma_unknown_count(types, r.domains@);
        lemma_unknown_count(types, r.ranges@);
        lemma_unknown_count(own, r.qualifiers@);
    }
    lemma_notes_none(Seq::empty(), relations, f, clean);
}

/// A relation that refers to known classes and relations only.
pub open spec fn relation_closed(types: Set<u128>, own: Set<u128>, r: ExportRelation) -> bool {
    &&& all_known(types, r.domains@)
    &&& all_known(types, r.ranges@)
    &&& !unknown_ref(own, r.inverse_of)
    &&& !unknown_ref(own, r.sub_property_of)
    &&& all_known(own, r.qualifiers@)
}

proof fn lemma_bad_reads(kbs: Map<u128, Option<Uuid>>, kb_id: Uuid, ids: Seq<Option<Uuid>>)
    ensures
        bad_reads(kbs, kb_id, ids) == 0 <==> (forall|i: int|
            0 <= i < ids.len() ==> !bad_read(kbs, kb_id, #[trigger] ids[i])),
    decreases ids.len(),
{
    if ids.len() > 0 {
        let before = ids.drop_last();
        lemma_bad_reads(kbs, kb_id, before);
        if forall|i: int| 0 <= i < ids.len() ==> !bad_read(kbs, kb_id, #[trigger] ids[i]) {
            assert forall|i: int| 0 <= i < before.len() implies !bad_read(
                kbs,
                kb_id,
                #[trigger] before[i],
            ) by {
                assert(!bad_read(kbs, kb_id, ids[i]));
            }
            assert(!bad_read(kbs, kb_id, ids[ids.len() - 1]));
        }
        if bad_reads(kbs, kb_id, ids) == 0 {
            assert forall|i: int| 0 <= i < ids.len() implies !bad_read(
                kbs,
                kb_id,
                #[trigger] ids[i],
            ) by {
                if i < before.len() {
                    assert(!bad_read(kbs, kb_id, before[i]));
                }
            }
        }
    }
}

/// The business rules of a knowledge base pass exactly if their references and those of their
/// conditions stay inside it, and so does every relation that a formula reads.
pub proof fn attribute_rules_pass_iff_clean(
    rules: Seq<ExportAttributeRule>,
    conditions: Seq<ExportRuleCondition>,
    relation_kbs: Seq<(Uuid, Option<Uuid>)>,
    kb_id: Uuid,
)
    ensures
        verdict(arules_violations(rules, conditions, relation_kbs, kb_id), Seq::empty()) is None <==> {
            &&& forall|i: int|
                0 <= i < rules.len() ==> (#[trigger] rules[i]).subject_type_kb == Some(kb_id) && (
                rules[i].conclude_type_id is Some ==> rules[i].conclude_type_kb == Some(kb_id)) && (
                rules[i].conclude_predicate_id is Some ==> rules[i].conclude_predicate_kb == Some(kb_id))
            &&& forall|i: int|
                0 <= i < conditions.len() ==> (#[trigger] conditions[i]).predicate_kb == Some(kb_id)
            &&& forall|i: int|
                0 <= i < (rule_reads(rules) + condition_reads(conditions)).len() ==> !bad_read(
                    kbs_of(relation_kbs),
                    kb_id,
                    #[trigger] (rule_reads(rules) + condition_reads(conditions))[i],
                )
        },
{
    let none = Seq::<ViolationView>::empty();
    let vs1 = note_each(none, rules, arule_notes(kb_id));
    lemma_notes_none(
        none,
        rules,
        arule_notes(kb_id),
        |r: ExportAttributeRule|
            r.subject_type_kb == Some(kb_id) && (r.conclude_type_id is Some ==> r.conclude_type_kb
                == Some(kb_id)) && (r.conclude_predicate_id is Some ==> r.conclude_predicate_kb
                == Some(kb_id)),
    );
    lemma_notes_none(
        vs1,
        conditions,
        condition_notes(kb_id),
        |c: ExportRuleCondition| c.predicate_kb == Some(kb_id),
    );
    lemma_bad_reads(
        kbs_of(relation_kbs),
        kb_id,
        rule_reads(rules) + condition_reads(conditions),
    );
}

// ---- What passed is not refused later ----

/// A fact of a page that passed, completed with what belongs to it, is written whole, if the
/// vocabulary knows its relation and the types of its properties. (A mark that says its object was
/// merged is read only where it has an object.)
pub proof fn passed_fact_is_written_whole(
    names: Names,
    vocab: Vocabulary,
    facts: Seq<ExportFact>,
    qualifiers: Seq<ExportQualifierRow>,
    properties: Seq<ExportStatementQualifier>,
    mentions: Seq<ExportTimeMention>,
    i: int,
    out: ExportFact,
    now: DateTime,
)
    requires
        facts_verdict(facts, names.kb()) is None,
        qualifiers_verdict(qualifiers, names.kb()) is None,
        properties_verdict(properties, names.kb()) is None,
        mentions_verdict(mentions, names.kb()) is None,
        0 <= i < facts.len(),
        facts[i].qualifiers@.len() == 0,
        facts[i].statement_qualifiers@.len() == 0,
        facts[i].time_mentions@.len() == 0,
        completed(facts, i, qualifiers, properties, mentions, out),
        knows_relation(vocab, facts[i].predicate_id),
        forall|k: int|
            0 <= k < qualifiers.len() ==> vocab.relation_iri(
                (#[trigger] qualifiers[k]).qualifier_type_id,
            ) is Some,
        facts[i].object_merged ==> facts[i].object_id is Some,
    ensures
        refusal(fact_steps(names, vocab, out, now)) is None,
{
    facts_pass_iff_clean(facts, names.kb());
    parts_pass_iff_clean(names.kb(), qualifiers, properties, mentions);
    assert(fact_clean(names.kb(), facts[i]));
    fact_is_written_iff(names, vocab, out, now);
    let ids = fact_ids(facts);
    let qs = share(ids, i, qualifiers, qualifier_key());
    let ps = share(ids, i, properties, property_key());
    let ms = share(ids, i, mentions, mention_key());
    assert forall|k: int| 0 <= k < out.qualifiers@.len() implies vocab.relation_iri(
        (#[trigger] out.qualifiers@[k]).qualifier_type_id,
    ) is Some by {
        lemma_share_from(ids, i, qualifiers, qualifier_key(), k);
        assert(out.qualifiers@[k].qualifier_type_id == qs[k].qualifier_type_id);
    }
    assert forall|k: int| 0 <= k < out.statement_qualifiers@.len() implies property_writable(
        names,
        #[trigger] out.statement_qualifiers@[k],
    ) by {
        lemma_share_from(ids, i, properties, property_key(), k);
        assert(out.statement_qualifiers@[k] == ps[k]);
    }
    assert forall|k: int| 0 <= k < out.time_mentions@.len() implies (
    #[trigger] out.time_mentions@[k]).chunk_kb == Some(names.kb()) by {
        lemma_share_from(ids, i, mentions, mention_key(), k);
        assert(out.time_mentions@[k] == ms[k]);
    }
}

/// A derived fact of a page that passed, completed with its premises, is written whole, if it has a
/// rule, the vocabulary knows its relation, and each premise is a fact or a derived fact.
pub proof fn passed_derived_fact_is_written_whole(
    names: Names,
    vocab: Vocabulary,
    page: Seq<ExportDerived>,
    premises: Seq<ExportPremiseRow>,
    i: int,
    out: ExportDerived,
)
    requires
        deriveds_verdict(page, names.kb()) is None,
        0 <= i < page.len(),
        page[i].premises@.len() == 0,
        proved(page, i, premises, out),
        page[i].rule_id is Some || page[i].attribute_rule_id is Some,
        vocab.relation_iri(page[i].predicate_id) is Some,
        forall|k: int|
            0 <= k < premises.len() ==> (#[trigger] premises[k]).premise_fact_id is Some
                || premises[k].premise_derived_id is Some,
        page[i].object_merged ==> page[i].object_id is Some,
    ensures
        refusal(derived_steps(names, vocab, out)) is None,
{
    derived_pass_iff_clean(page, names.kb());
    assert(derived_clean(names.kb(), page[i]));
    derived_is_written_iff(names, vocab, out);
    let ids = derived_ids(page);
    let ps = share(ids, i, premises, premise_key());
    assert forall|k: int| 0 <= k < out.premises@.len() implies (
    #[trigger] out.premises@[k]).fact_id is Some || out.premises@[k].derived_id is Some by {
        lemma_share_from(ids, i, premises, premise_key(), k);
        assert(out.premises@[k] == premise_of(ps[k]));
    }
}

/// Axioms, entities, versions, passages and evidence of pages that passed are written whole, if the
/// vocabulary knows their relations and classes.
pub proof fn passed_rows_are_written_whole(
    names: Names,
    vocab: Vocabulary,
    rules: Seq<ExportRule>,
    entities: Seq<ExportEntity>,
    versions: Seq<ExportDocumentVersion>,
    chunks: Seq<ExportChunk>,
    evidence: Seq<ExportEvidence>,
    i: int,
)
    ensures
        verdict(note_each(Seq::empty(), rules, rule_notes(names.kb())), Seq::empty()) is None && 0 <= i
            < rules.len() && vocab.relation_iri(rules[i].predicate_id) is Some ==> refusal(
            rule_steps(names, vocab, rules[i]),
        ) is None,
        0 <= i < entities.len() && knows_class(vocab, entities[i].type_id) ==> refusal(
            entity_steps(names, vocab, entities[i]),
        ) is None,
        verdict(note_each(Seq::empty(), versions, docversion_notes(names.kb())), Seq::empty()) is None
            && 0 <= i < versions.len() ==> refusal(docversion_steps(names, versions[i])) is None,
        verdict(note_each(Seq::empty(), chunks, chunk_notes(names.kb())), Seq::empty()) is None && 0
            <= i < chunks.len() ==> refusal(chunk_steps(names, chunks[i])) is None,
        verdict(note_each(Seq::empty(), evidence, evidence_notes(names.kb())), Seq::empty()) is None
            && 0 <= i < evidence.len() ==> refusal(evidence_steps(names, evidence[i])) is None,
{
    pages_pass_iff_clean(names.kb(), rules, entities, versions, chunks, evidence);
    rule_is_written_iff(names, vocab, rules[i]);
    entity_is_written_iff(names, vocab, entities[i]);
    sources_are_written_iff(names, chunks[i], versions[i], evidence[i]);
}

/// A business rule of a knowledge base that passed, completed with its conditions, is written whole,
/// if the vocabulary knows what it names: its classes, the relations of it and of its conditions,
/// and each relation of the knowledge base that a formula reads.
pub proof fn passed_attribute_rule_is_written_whole(
    names: Names,
    vocab: Vocabulary,
    rules: Seq<ExportAttributeRule>,
    conditions: Seq<ExportRuleCondition>,
    relation_kbs: Seq<(Uuid, Option<Uuid>)>,
    i: int,
    out: ExportAttributeRule,
)
    requires
        verdict(arules_violations(rules, conditions, relation_kbs, names.kb()), Seq::empty()) is None,
        0 <= i < rules.len(),
        rules[i].conditions@.len() == 0,
        conditioned(rules, i, conditions, out),
        vocab.class_iri(rules[i].subject_type_id) is Some,
        knows_class(vocab, rules[i].conclude_type_id),
        knows_relation(vocab, rules[i].conclude_predicate_id),
        forall|k: int|
            0 <= k < conditions.len() ==> vocab.relation_iri(
                (#[trigger] conditions[k]).predicate_id,
            ) is Some,
        forall|id: Uuid|
            !bad_read(kbs_of(relation_kbs), names.kb(), Some(id)) ==> (#[trigger] vocab.relation_iri(
                id,
            )) is Some,
    ensures
        refusal(attribute_rule_steps(names, vocab, out)) is None,
{
    let kb_id = names.kb();
    let kbs = kbs_of(relation_kbs);
    attribute_rules_pass_iff_clean(rules, conditions, relation_kbs, kb_id);
    attribute_rule_is_written_iff(names, vocab, out);
    let reads = rule_reads(rules) + condition_reads(conditions);
    assert(rules[i].subject_type_kb == Some(kb_id));
    if let Some(e) = out.conclude_expr {
        assert forall|k: int| 0 <= k < expr_ids(e@).len() implies readable(
            vocab,
            #[trigger] expr_ids(e@)[k],
        ) by {
            let j = lemma_rule_read(rules, i, k);
            assert(reads[j] == expr_ids(e@)[k]);
            assert(!bad_read(kbs, kb_id, reads[j]));
        }
    }
    let cs = share(arule_ids(rules), i, conditions, condition_key());
    assert forall|k: int| 0 <= k < out.conditions@.len() implies condition_writable(
        names,
        vocab,
        #[trigger] out.conditions@[k],
    ) by {
        let n = lemma_share_from(arule_ids(rules), i, conditions, condition_key(), k);
        assert(out.conditions@[k] == cs[k]);
        let c = conditions[n];
        assert(c.predicate_kb == Some(kb_id));
        if let Some(o) = c.operand {
            if o@ is Object {
                assert forall|m: int| 0 <= m < expr_ids(o@).len() implies readable(
                    vocab,
                    #[trigger] expr_ids(o@)[m],
                ) by {
                    let j = lemma_condition_read(conditions, n, m);
                    assert(reads[rule_reads(rules).len() + j] == expr_ids(o@)[m]);
                    assert(!bad_read(kbs, kb_id, reads[rule_reads(rules).len() + j]));
                }
            }
        }
    }
}

proof fn lemma_rule_read(rules: Seq<ExportAttributeRule>, i: int, k: int) -> (j: int)
    requires
        0 <= i < rules.len(),
        rules[i].conclude_expr matches Some(e) && 0 <= k < expr_ids(e@).len(),
    ensures
        0 <= j < rule_reads(rules).len(),
        rule_reads(rules)[j] == expr_ids(rules[i].conclude_expr->0@)[k],
    decreases rules.len(),
{
    let before = rules.drop_last();
    if i == rules.len() - 1 {
        rule_reads(before).len() + k
    } else {
        lemma_rule_read(before, i, k)
    }
}

proof fn lemma_condition_read(conditions: Seq<ExportRuleCondition>, i: int, k: int) -> (j: int)
    requires
        0 <= i < conditions.len(),
        conditions[i].operand matches Some(o) && o@ is Object && 0 <= k < expr_ids(o@).len(),
    ensures
        0 <= j < condition_reads(conditions).len(),
        condition_reads(conditions)[j] == expr_ids(conditions[i].operand->0@)[k],
    decreases conditions.len(),
{
    let before = conditions.drop_last();
    if i == conditions.len() - 1 {
        condition_reads(before).len() + k
    } else {
        lemma_condition_read(before, i, k)
    }
}

proof fn lemma_share_from<T>(
    ids: Seq<Uuid>,
    i: int,
    rows: Seq<T>,
    key: spec_fn(T) -> u128,
    k: int,
) -> (n: int)
    ensures
        0 <= k < share(ids, i, rows, key).len() ==> 0 <= n < rows.len() && rows[n] == share(
            ids,
            i,
            rows,
            key,
        )[k],
{
    if 0 <= k < share(ids, i, rows, key).len() {
        lemma_belonging_from(rows, key, ids[i].value, k)
    } else {
        0
    }
}

proof fn lemma_belonging_from<T>(
    rows: Seq<T>,
    key: spec_fn(T) -> u128, id: u128, k: int,
) -> (n: int)
    requires
        0 <= k < belonging(rows, key, id).len(),
    ensures
        0 <= n < rows.len(),
        rows[n] == belonging(rows, key, id)[k],
    decreases rows.len(),
{
    let before = belonging(rows.drop_last(), key, id);
    if k < before.len() {
        lemma_belonging_from(rows.drop_last(), key, id, k)
    } else {
        rows.len() - 1
    }
}

proof fn lemma_class_in(classes: Seq<(Uuid, NamedNode)>, id: Uuid, i: int)
    requires
        0 <= i < classes.len(),
        classes[i].0 == id,
    ensures
        class_in(classes, id) is Some,
        (forall|j: int| 0 <= j < i ==> (#[trigger] classes[j]).0 != id) ==> class_in(classes, id)
            == Some(classes[i].1@),
    decreases classes.len(),
{
    if classes[0].0 != id {
        let rest = classes.skip(1);
        assert(rest[i - 1] == classes[i]);
        lemma_class_in(rest, id, i - 1);
        if forall|j: int| 0 <= j < i ==> (#[trigger] classes[j]).0 != id {
            assert forall|j: int| 0 <= j < i - 1 implies (#[trigger] rest[j]).0 != id by {
                assert(rest[j] == classes[j + 1]);
            }
        }
    } else if i > 0 {
        assert(classes[0].0 == id);
    }
}

proof fn lemma_class_in_none(classes: Seq<(Uuid, NamedNode)>, id: Uuid)
    requires
        forall|j: int| 0 <= j < classes.len() ==> (#[trigger] classes[j]).0 != id,
    ensures
        class_in(classes, id) is None,
    decreases classes.len(),
{
    if classes.len() > 0 {
        assert(classes[0].0 != id);
        let rest = classes.skip(1);
        assert forall|j: int| 0 <= j < rest.len() implies (#[trigger] rest[j]).0 != id by {
            assert(rest[j] == classes[j + 1]);
        }
        lemma_class_in_none(rest, id);
    }
}

proof fn lemma_relation_in(
    relations: Seq<(Uuid, NamedNode, Option<String>, Option<String>)>,
    id: Uuid,
    i: int,
)
    requires
        0 <= i < relations.len(),
        relations[i].0 == id,
    ensures
        relation_in(relations, id) is Some,
        (forall|j: int| 0 <= j < i ==> (#[trigger] relations[j]).0 != id) ==> relation_in(
            relations,
            id,
        ) == Some(
            RelationView {
                iri: relations[i].1@,
                datatype: opt_text(relations[i].2),
                unit: opt_text(relations[i].3),
            },
        ),
    decreases relations.len(),
{
    if relations[0].0 != id {
        let rest = relations.skip(1);
        assert(rest[i - 1] == relations[i]);
        lemma_relation_in(rest, id, i - 1);
        if forall|j: int| 0 <= j < i ==> (#[trigger] relations[j]).0 != id {
            assert forall|j: int| 0 <= j < i - 1 implies (#[trigger] rest[j]).0 != id by {
                assert(rest[j] == relations[j + 1]);
            }
        }
    } else if i > 0 {
        assert(relations[0].0 == id);
    }
}

proof fn lemma_relation_in_none(
    relations: Seq<(Uuid, NamedNode, Option<String>, Option<String>)>,
    id: Uuid,
)
    requires
        forall|j: int| 0 <= j < relations.len() ==> (#[trigger] relations[j]).0 != id,
    ensures
        relation_in(relations, id) is None,
    decreases relations.len(),
{
    if relations.len() > 0 {
        assert(relations[0].0 != id);
        let rest = relations.skip(1);
        assert forall|j: int| 0 <= j < rest.len() implies (#[trigger] rest[j]).0 != id by {
            assert(rest[j] == relations[j + 1]);
        }
        lemma_relation_in_none(rest, id);
    }
}

/// No class before `i` has its identifier.
pub open spec fn first_class(classes: Seq<ExportClass>, i: int) -> bool {
    forall|j: int| 0 <= j < i ==> (#[trigger] classes[j]).id != classes[i].id
}

/// A vocabulary resolves a class to the name of the first class with that identifier.
pub proof fn vocabulary_resolves_class(
    vocab: Vocabulary,
    names: Names,
    classes: Seq<ExportClass>,
    relations: Seq<ExportRelation>,
    i: int,
)
    requires
        vocabulary_of(vocab, names, classes, relations),
        0 <= i < classes.len(),
        first_class(classes, i),
    ensures
        vocab.class_iri(classes[i].id) == Some(names.class_iri(classes[i])),
{
    assert(vocab.classes@[i].0 == classes[i].id);
    assert forall|j: int| 0 <= j < i implies (#[trigger] vocab.classes@[j]).0 != classes[i].id by {
        assert(classes[j].id != classes[i].id);
    }
    lemma_class_in(vocab.classes@, classes[i].id, i);
}

/// No relation before `i` has its identifier.
pub open spec fn first_relation(relations: Seq<ExportRelation>, i: int) -> bool {
    forall|j: int| 0 <= j < i ==> (#[trigger] relations[j]).id != relations[i].id
}

/// A vocabulary resolves a relation to the name, the datatype and the unit of the first relation with
/// that identifier.
pub proof fn vocabulary_resolves_relation(
    vocab: Vocabulary,
    names: Names,
    classes: Seq<ExportClass>,
    relations: Seq<ExportRelation>,
    i: int,
)
    requires
        vocabulary_of(vocab, names, classes, relations),
        0 <= i < relations.len(),
        first_relation(relations, i),
    ensures
        relation_in(vocab.relations@, relations[i].id) == Some(
            RelationView {
                iri: names.relation_iri(relations[i]),
                datatype: opt_text(relations[i].datatype),
                unit: opt_text(relations[i].unit),
            },
        ),
        vocab.relation_iri(relations[i].id) == Some(names.relation_iri(relations[i])),
        vocab.datatype(relations[i].id) == opt_text(relations[i].datatype),
        vocab.unit(relations[i].id) == opt_text(relations[i].unit),
{
    assert(vocab.relations@[i].0 == relations[i].id);
    assert forall|j: int| 0 <= j < i implies (#[trigger] vocab.relations@[j]).0 != relations[i].id by {
        assert(relations[j].id != relations[i].id);
    }
    lemma_relation_in(vocab.relations@, relations[i].id, i);
}

/// What a vocabulary says of a class or a relation is what its first entry with that identifier says,
/// and without such an entry it says nothing.
pub proof fn vocabulary_says_what_its_entries_say(vocab: Vocabulary, id: Uuid, i: int)
    ensures
        0 <= i < vocab.classes@.len() && vocab.classes@[i].0 == id && (forall|j: int|
            0 <= j < i ==> (#[trigger] vocab.classes@[j]).0 != id) ==> vocab.class_iri(id) == Some(
            vocab.classes@[i].1@,
        ),
        (forall|j: int| 0 <= j < vocab.classes@.len() ==> (#[trigger] vocab.classes@[j]).0 != id)
            ==> vocab.class_iri(id) is None,
        0 <= i < vocab.relations@.len() && vocab.relations@[i].0 == id && (forall|j: int|
            0 <= j < i ==> (#[trigger] vocab.relations@[j]).0 != id) ==> vocab.relation_iri(id)
            == Some(vocab.relations@[i].1@) && vocab.datatype(id) == opt_text(
            vocab.relations@[i].2,
        ) && vocab.unit(id) == opt_text(vocab.relations@[i].3),
        (forall|j: int| 0 <= j < vocab.relations@.len() ==> (#[trigger] vocab.relations@[j]).0 != id)
            ==> vocab.relation_iri(id) is None && vocab.datatype(id) is None && vocab.unit(id) is None,
{
    if 0 <= i < vocab.classes@.len() && vocab.classes@[i].0 == id && (forall|j: int|
        0 <= j < i ==> (#[trigger] vocab.classes@[j]).0 != id) {
        lemma_class_in(vocab.classes@, id, i);
    }
    if forall|j: int| 0 <= j < vocab.classes@.len() ==> (#[trigger] vocab.classes@[j]).0 != id {
        lemma_class_in_none(vocab.classes@, id);
    }
    if 0 <= i < vocab.relations@.len() && vocab.relations@[i].0 == id && (forall|j: int|
        0 <= j < i ==> (#[trigger] vocab.relations@[j]).0 != id) {
        lemma_relation_in(vocab.relations@, id, i);
    }
    if forall|j: int| 0 <= j < vocab.relations@.len() ==> (#[trigger] vocab.relations@[j]).0 != id {
        lemma_relation_in_none(vocab.relations@, id);
    }
}

proof fn lemma_known_class(
    vocab: Vocabulary,
    names: Names,
    classes: Seq<ExportClass>,
    relations: Seq<ExportRelation>,
    id: Uuid,
)
    requires
        vocabulary_of(vocab, names, classes, relations),
        class_ids(classes).contains(id.value),
    ensures
        vocab.class_iri(id) is Some,
{
    let i = choose|i: int| 0 <= i < classes.len() && (#[trigger] classes[i]).id.value == id.value;
    assert(vocab.classes@[i].0 == classes[i].id);
    lemma_class_in(vocab.classes@, id, i);
}

proof fn lemma_known_relation(
    vocab: Vocabulary,
    names: Names,
    classes: Seq<ExportClass>,
    relations: Seq<ExportRelation>,
    id: Uuid,
)
    requires
        vocabulary_of(vocab, names, classes, relations),
        relation_ids(relations).contains(id.value),
    ensures
        vocab.relation_iri(id) is Some,
{
    let i = choose|i: int| 0 <= i < relations.len() && (#[trigger] relations[i]).id.value == id.value;
    assert(vocab.relations@[i].0 == relations[i].id);
    lemma_relation_in(vocab.relations@, id, i);
}

proof fn lemma_known_classes(
    vocab: Vocabulary,
    names: Names,
    classes: Seq<ExportClass>,
    relations: Seq<ExportRelation>,
    ids: Seq<Uuid>,
)
    requires
        vocabulary_of(vocab, names, classes, relations),
        all_known(class_ids(classes), ids),
    ensures
        knows_classes(vocab, ids),
{
    assert forall|i: int| 0 <= i < ids.len() implies vocab.class_iri(#[trigger] ids[i]) is Some by {
        lemma_known_class(vocab, names, classes, relations, ids[i]);
    }
}

/// When the classes of a knowledge base passed, each of them is written whole. (The primary parents
/// of a class are among its parents.)
pub proof fn passed_class_is_written_whole(
    vocab: Vocabulary,
    names: Names,
    classes: Seq<ExportClass>,
    relations: Seq<ExportRelation>,
    i: int,
)
    requires
        vocabulary_of(vocab, names, classes, relations),
        verdict(classes_violations(classes), Seq::empty()) is None,
        0 <= i < classes.len(),
        all_known(class_ids(classes), classes[i].primary_parents@),
    ensures
        vocab.class_iri(classes[i].id) is Some,
        refusal(class_steps(vocab, classes[i])) is None,
{
    classes_pass_iff_closed(classes);
    let c = classes[i];
    assert(class_ids(classes).contains(c.id.value));
    lemma_known_class(vocab, names, classes, relations, c.id);
    lemma_known_classes(vocab, names, classes, relations, c.parents@);
    lemma_known_classes(vocab, names, classes, relations, c.primary_parents@);
    lemma_known_classes(vocab, names, classes, relations, c.disjoint@);
    class_is_written_iff(vocab, c);
}

/// When the relations of a knowledge base passed, each of them is written whole.
pub proof fn passed_relation_is_written_whole(
    vocab: Vocabulary,
    names: Names,
    classes: Seq<ExportClass>,
    relations: Seq<ExportRelation>,
    own_types: Seq<Uuid>,
    i: int,
)
    requires
        vocabulary_of(vocab, names, classes, relations),
        id_set(own_types) == class_ids(classes),
        verdict(relations_violations(relations, own_types), Seq::empty()) is None,
        0 <= i < relations.len(),
    ensures
        vocab.relation_iri(relations[i].id) is Some,
        refusal(relation_steps(vocab, relations[i])) is None,
{
    relations_pass_iff_closed(relations, own_types);
    let r = relations[i];
    assert(relation_closed(id_set(own_types), relation_ids(relations), r));
    assert(relation_ids(relations).contains(r.id.value));
    lemma_known_relation(vocab, names, classes, relations, r.id);
    lemma_known_classes(vocab, names, classes, relations, r.domains@);
    lemma_known_classes(vocab, names, classes, relations, r.ranges@);
    assert forall|j: int| 0 <= j < r.qualifiers@.len() implies vocab.relation_iri(
        #[trigger] r.qualifiers@[j],
    ) is Some by {
        lemma_known_relation(vocab, names, classes, relations, r.qualifiers@[j]);
    }
    if r.inverse_of is Some {
        lemma_known_relation(vocab, names, classes, relations, r.inverse_of->0);
    }
    if r.sub_property_of is Some {
        lemma_known_relation(vocab, names, classes, relations, r.sub_property_of->0);
    }
    relation_is_written_iff(vocab, r);
}

// ---- The order of rows ----

/// Two vocabularies resolve everything alike.
pub open spec fn resolve_alike(v: Vocabulary, w: Vocabulary) -> bool {
    &&& forall|id: Uuid| #[trigger] v.class_iri(id) == w.class_iri(id)
    &&& forall|id: Uuid| #[trigger] v.relation_iri(id) == w.relation_iri(id)
}

/// Each entry of one list of classes is in the other.
pub open spec fn classes_within(a: Seq<(Uuid, NamedNode)>, b: Seq<(Uuid, NamedNode)>) -> bool {
    forall|i: int|
        0 <= i < a.len() ==> exists|j: int|
            0 <= j < b.len() && (#[trigger] b[j]).0 == (#[trigger] a[i]).0 && b[j].1@ == a[i].1@
}

/// No identifier occurs twice in a list of classes.
pub open spec fn classes_distinct(a: Seq<(Uuid, NamedNode)>) -> bool {
    forall|i: int, j: int| 0 <= i < j < a.len() ==> (#[trigger] a[i]).0 != (#[trigger] a[j]).0
}

/// Which order the classes come in makes no difference to what they resolve to.
pub proof fn class_order_makes_no_difference(
    a: Seq<(Uuid, NamedNode)>,
    b: Seq<(Uuid, NamedNode)>,
    id: Uuid,
)
    requires
        classes_distinct(a),
        classes_distinct(b),
        classes_within(a, b),
        classes_within(b, a),
    ensures
        class_in(a, id) == class_in(b, id),
{
    if exists|i: int| 0 <= i < a.len() && (#[trigger] a[i]).0 == id {
        let i = choose|i: int| 0 <= i < a.len() && (#[trigger] a[i]).0 == id;
        let j = choose|j: int|
            0 <= j < b.len() && (#[trigger] b[j]).0 == a[i].0 && b[j].1@ == a[i].1@;
        lemma_class_in(a, id, i);
        lemma_class_in(b, id, j);
    } else {
        if exists|j: int| 0 <= j < b.len() && (#[trigger] b[j]).0 == id {
            let j = choose|j: int| 0 <= j < b.len() && (#[trigger] b[j]).0 == id;
            let i = choose|i: int|
                0 <= i < a.len() && (#[trigger] a[i]).0 == b[j].0 && a[i].1@ == b[j].1@;
            assert(a[i].0 == id);
        }
        lemma_class_in_none(a, id);
        lemma_class_in_none(b, id);
    }
}

/// Each entry of one list of relations is in the other.
pub open spec fn relations_within(
    a: Seq<(Uuid, NamedNode, Option<String>, Option<String>)>,
    b: Seq<(Uuid, NamedNode, Option<String>, Option<String>)>,
) -> bool {
    forall|i: int|
        0 <= i < a.len() ==> exists|j: int|
            0 <= j < b.len() && (#[trigger] b[j]).0 == (#[trigger] a[i]).0 && b[j].1@ == a[i].1@
                && opt_text(b[j].2) == opt_text(a[i].2) && opt_text(b[j].3) == opt_text(a[i].3)
}

/// No identifier occurs twice in a list of relations.
pub open spec fn relations_distinct(
    a: Seq<(Uuid, NamedNode, Option<String>, Option<String>)>,
) -> bool {
    forall|i: int, j: int| 0 <= i < j < a.len() ==> (#[trigger] a[i]).0 != (#[trigger] a[j]).0
}

/// Which order the relations come in makes no difference to what they resolve to.
pub proof fn relation_order_makes_no_difference(
    a: Seq<(Uuid, NamedNode, Option<String>, Option<String>)>,
    b: Seq<(Uuid, NamedNode, Option<String>, Option<String>)>,
    id: Uuid,
)
    requires
        relations_distinct(a),
        relations_distinct(b),
        relations_within(a, b),
        relations_within(b, a),
    ensures
        relation_in(a, id) == relation_in(b, id),
{
    if exists|i: int| 0 <= i < a.len() && (#[trigger] a[i]).0 == id {
        let i = choose|i: int| 0 <= i < a.len() && (#[trigger] a[i]).0 == id;
        let j = choose|j: int|
            0 <= j < b.len() && (#[trigger] b[j]).0 == a[i].0 && b[j].1@ == a[i].1@ && opt_text(b[j].2)
                == opt_text(a[i].2) && opt_text(b[j].3) == opt_text(a[i].3);
        lemma_relation_in(a, id, i);
        lemma_relation_in(b, id, j);
    } else {
        if exists|j: int| 0 <= j < b.len() && (#[trigger] b[j]).0 == id {
            let j = choose|j: int| 0 <= j < b.len() && (#[trigger] b[j]).0 == id;
            let i = choose|i: int|
                0 <= i < a.len() && (#[trigger] a[i]).0 == b[j].0 && a[i].1@ == b[j].1@ && opt_text(
                    a[i].2,
                ) == opt_text(b[j].2) && opt_text(a[i].3) == opt_text(b[j].3);
            assert(a[i].0 == id);
        }
        lemma_relation_in_none(a, id);
        lemma_relation_in_none(b, id);
    }
}

proof fn lemma_each_same(n: nat, f: spec_fn(int) -> Seq<Step>, g: spec_fn(int) -> Seq<Step>)
    requires
        forall|i: int| 0 <= i < n ==> #[trigger] f(i) == g(i),
    ensures
        each(n, f) == each(n, g),
    decreases n,
{
    if n > 0 {
        lemma_each_same((n - 1) as nat, f, g);
        assert(f(n - 1) == g(n - 1));
    }
}

proof fn lemma_class_refs_same(
    v: Vocabulary,
    w: Vocabulary,
    s: Seq<char>,
    p: Seq<char>,
    ids: Seq<Uuid>,
    edge: Seq<char>,
)
    requires
        resolve_alike(v, w),
    ensures
        class_refs_steps(v, s, p, ids, edge) == class_refs_steps(w, s, p, ids, edge),
{
    reveal(class_refs_steps);
    reveal(class_ref_steps);
    lemma_each_same(
        ids.len(),
        class_ref_at(v, s, p, ids, edge),
        class_ref_at(w, s, p, ids, edge),
    );
}

/// What is written of a relation depends on the vocabulary only through what it resolves: the links
/// that a relation declares are written wherever it stands in the file.
pub proof fn relation_depends_on_resolution_alone(v: Vocabulary, w: Vocabulary, r: ExportRelation)
    requires
        resolve_alike(v, w),
    ensures
        relation_steps(v, r) == relation_steps(w, r),
{
    assert(v.relation_iri(r.id) == w.relation_iri(r.id));
    if v.relation_iri(r.id) is Some {
        let iri = v.relation_iri(r.id)->0;
        reveal(opt_relation_ref_steps);
        reveal(relation_ref_steps);
        if r.inverse_of is Some {
            assert(v.relation_iri(r.inverse_of->0) == w.relation_iri(r.inverse_of->0));
        }
        if r.sub_property_of is Some {
            assert(v.relation_iri(r.sub_property_of->0) == w.relation_iri(r.sub_property_of->0));
        }
        assert(relation_refs_steps(
            v,
            iri,
            utopia_iri("allowedQualifier"@),
            r.qualifiers@,
            "relation.qualifier"@,
        ) == relation_refs_steps(
            w,
            iri,
            utopia_iri("allowedQualifier"@),
            r.qualifiers@,
            "relation.qualifier"@,
        )) by {
            reveal(relation_refs_steps);
            lemma_each_same(
                r.qualifiers@.len(),
                relation_ref_at(
                    v,
                    iri,
                    utopia_iri("allowedQualifier"@),
                    r.qualifiers@,
                    "relation.qualifier"@,
                ),
                relation_ref_at(
                    w,
                    iri,
                    utopia_iri("allowedQualifier"@),
                    r.qualifiers@,
                    "relation.qualifier"@,
                ),
            );
        }
        lemma_class_refs_same(v, w, iri, rdfs_iri("domain"@), r.domains@, "relation.domain"@);
        lemma_class_refs_same(v, w, iri, rdfs_iri("range"@), r.ranges@, "relation.range"@);
    }
}

// ---- Rows of a second table ----

/// The rows that belong to an identifier are exactly those with it, in their order.
pub proof fn belonging_is_a_filter<T>(rows: Seq<T>, key: spec_fn(T) -> u128, id: u128)
    ensures
        belonging(rows, key, id) == rows.filter(|r: T| key(r) == id),
    decreases rows.len(),
{
    reveal(Seq::filter);
    if rows.len() > 0 {
        belonging_is_a_filter(rows.drop_last(), key, id);
    }
}

/// No row is lost: a row of a second table reaches the first row that it belongs to.
pub proof fn no_row_is_lost<T>(
    ids: Seq<Uuid>,
    i: int,
    rows: Seq<T>,
    key: spec_fn(T) -> u128, k: int,
)
    requires
        0 <= i < ids.len(),
        first_of(ids, i),
        0 <= k < rows.len(),
        key(rows[k]) == ids[i].value,
    ensures
        share(ids, i, rows, key).contains(rows[k]),
{
    lemma_belongs(rows, key, k);
}

proof fn lemma_belongs<T>(rows: Seq<T>, key: spec_fn(T) -> u128, k: int)
    requires
        0 <= k < rows.len(),
    ensures
        belonging(rows, key, key(rows[k])).contains(rows[k]),
    decreases rows.len(),
{
    let id = key(rows[k]);
    let before = belonging(rows.drop_last(), key, id);
    if k == rows.len() - 1 {
        let now = before.push(rows.last());
        assert(now[before.len() as int] == rows[k]);
    } else {
        lemma_belongs(rows.drop_last(), key, k);
        let j = choose|j: int| 0 <= j < before.len() && before[j] == rows[k];
        let now = belonging(rows, key, id);
        assert(now[j] == rows[k]);
    }
}

} // verus!
