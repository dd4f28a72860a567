//! What a refused page says: which references are counted, under which names, and in which words.
use crate::integrity::{
    noted, noted_if, of_kind, verdict, violations_text, AppError, ErrorView, ScanViolation,
    ViolationView,
};
use crate::pages::{
    chunk_notes, class_ids, class_notes, docversion_notes, entity_notes, evidence_notes, id_set,
    note_each, page_result, relation_ids, relation_notes, reported, rule_notes, unknown_count,
};
use crate::expr::expr_ids;
use crate::rows::{
    ExportAttributeRule, ExportChunk, ExportClass, ExportDerived, ExportDocumentVersion,
    ExportEntity, ExportEvidence, ExportFact, ExportRelation, ExportRule, ExportRuleCondition,
    ExportStatementQualifier, ExportTimeMention,
};
use crate::rule_pages::{
    arule_notes, arules_violations, bad_reads, condition_notes, condition_reads, kbs_of, rule_reads,
};
use crate::statement_pages::{
    derived_merged_notes, derived_notes, deriveds_verdict, fact_merged_notes, fact_notes,
    facts_verdict, mention_notes, mentions_verdict, properties_verdict, property_merged_notes,
    property_notes, qualifier_merged_notes, qualifier_notes, qualifiers_verdict, ExportQualifierRow,
};
use crate::text::int_text;
use crate::uuid::Uuid;
use vstd::prelude::*;

verus! {

// ---- Words ----

/// References that leave the knowledge base refuse an export under their own code, whatever else is
/// wrong with it; references to rows that are not exported refuse it under another; and an export
/// without either is not refused.
pub proof fn foreign_references_come_first(a: Seq<ViolationView>, b: Seq<ViolationView>)
    ensures
        a.len() > 0 ==> verdict(a, b) == Some(
            ErrorView {
                code: "cross_kb_provenance"@,
                message: "export refused: KB-scoped provenance points outside the knowledge base"@,
                detail: violations_text(a),
            },
        ),
        a.len() == 0 && b.len() > 0 ==> verdict(a, b) == Some(
            ErrorView {
                code: "unexported_target"@,
                message:
                    "export refused: a reference points at a row that is not in this KB's exported set"@,
                detail: violations_text(b),
            },
        ),
        a.len() == 0 && b.len() == 0 ==> verdict(a, b) is None,
{
}

/// The details of a refusal list every kind of reference with the number of rows, in order, with
/// semicolons between them.
pub proof fn details_list_every_violation(vs: Seq<ViolationView>, v: ViolationView)
    ensures
        violations_text(Seq::empty()) == Seq::<char>::empty(),
        vs.len() == 0 ==> violations_text(vs.push(v)) == v.edge + ": "@ + int_text(v.rows)
            + " row(s)"@,
        vs.len() > 0 ==> violations_text(vs.push(v)) == violations_text(vs) + "; "@ + (v.edge + ": "@
            + int_text(v.rows) + " row(s)"@),
{
    assert(vs.push(v).drop_last() =~= vs);
}

/// A kind of reference is noted exactly if at least one row has it, behind those that were noted
/// before.
pub proof fn only_violations_are_noted(vs: Seq<ViolationView>, edge: Seq<char>, rows: int)
    ensures
        rows > 0 ==> noted(vs, edge, rows) == vs.push(ViolationView { edge, rows }),
        rows <= 0 ==> noted(vs, edge, rows) == vs,
{
}

/// Rows are judged one after the other.
pub proof fn rows_are_noted_in_order<T>(
    vs: Seq<ViolationView>,
    rows: Seq<T>,
    row: T,
    f: spec_fn(Seq<ViolationView>, T) -> Seq<ViolationView>,
)
    ensures
        note_each(vs, Seq::<T>::empty(), f) == vs,
        note_each(vs, rows.push(row), f) == f(note_each(vs, rows, f), row),
{
    assert(rows.push(row).drop_last() =~= rows);
}

/// A page without violations is handed on as it is, and one with violations is refused for all of
/// them.
pub proof fn page_is_handed_on_unchanged<T>(
    page: Vec<T>,
    result: Result<Vec<T>, AppError>,
    vs: Seq<ViolationView>,
)
    requires
        page_result(page, result, vs),
    ensures
        vs.len() == 0 ==> result == Ok::<Vec<T>, AppError>(page),
        vs.len() > 0 ==> result is Err && result->Err_0@ == (ErrorView {
            code: "cross_kb_provenance"@,
            message: "export refused: KB-scoped provenance points outside the knowledge base"@,
            detail: violations_text(vs),
        }),
{
}

/// The lines of a scan are told apart by their kind alone, and keep their order.
pub proof fn scan_is_told_apart_by_kind(scan: Seq<ScanViolation>, kind: Seq<char>)
    ensures
        of_kind(scan, kind) == scan.filter(|v: ScanViolation| v.kind@ == kind).map_values(
            |v: ScanViolation| ViolationView { edge: v.edge@, rows: v.rows as int },
        ),
    decreases scan.len(),
{
    reveal(Seq::filter);
    let p = |v: ScanViolation| v.kind@ == kind;
    let g = |v: ScanViolation| ViolationView { edge: v.edge@, rows: v.rows as int };
    if scan.len() > 0 {
        scan_is_told_apart_by_kind(scan.drop_last(), kind);
        let before = scan.drop_last().filter(p);
        if p(scan.last()) {
            assert(before.push(scan.last()).map_values(g) =~= before.map_values(g).push(
                g(scan.last()),
            ));
        }
    }
    assert(of_kind(scan, kind) =~= scan.filter(p).map_values(g));
}

// ---- What is noted of a row ----

/// One row with this kind of reference, if it is bad.
spec fn entry(bad: bool, edge: Seq<char>) -> Seq<ViolationView> {
    if bad {
        seq![ViolationView { edge, rows: 1 }]
    } else {
        Seq::empty()
    }
}

broadcast proof fn lemma_noted_if(vs: Seq<ViolationView>, edge: Seq<char>, bad: bool)
    ensures
        #[trigger] noted_if(vs, edge, bad) == vs + entry(bad, edge),
{
    assert(noted_if(vs, edge, bad) =~= vs + entry(bad, edge));
}

broadcast proof fn lemma_noted(vs: Seq<ViolationView>, edge: Seq<char>, rows: int)
    ensures
        #[trigger] noted(vs, edge, rows) == vs + entries(rows, edge),
{
    assert(noted(vs, edge, rows) =~= vs + entries(rows, edge));
}

/// So many rows with this kind of reference.
spec fn entries(rows: int, edge: Seq<char>) -> Seq<ViolationView> {
    if rows > 0 {
        seq![ViolationView { edge, rows }]
    } else {
        Seq::empty()
    }
}

/// A fact is noted for each reference that leaves the knowledge base, and apart from these for each merged
/// entity that it names.
pub proof fn fact_notes_say(vs: Seq<ViolationView>, f: ExportFact, kb_id: Uuid)
    ensures
        fact_notes(kb_id)(vs, f) == vs
            + (if f.subject_kb != Some(kb_id) {
                seq![ViolationView { edge: "fact.subject"@, rows: 1 }]
            } else {
                Seq::empty()
            })
            + (if f.object_id is Some && f.object_kb != Some(kb_id) {
                seq![ViolationView { edge: "fact.object"@, rows: 1 }]
            } else {
                Seq::empty()
            })
            + (if f.predicate_id is Some && f.predicate_kb != Some(kb_id) {
                seq![ViolationView { edge: "fact.predicate"@, rows: 1 }]
            } else {
                Seq::empty()
            })
            + (if f.supersedes is Some && f.supersedes_kb != Some(kb_id) {
                seq![ViolationView { edge: "fact.supersedes"@, rows: 1 }]
            } else {
                Seq::empty()
            })
            + (if f.foreign_source {
                seq![ViolationView { edge: "fact.source"@, rows: 1 }]
            } else {
                Seq::empty()
            })
            + (if f.foreign_document {
                seq![ViolationView { edge: "evidence.document"@, rows: 1 }]
            } else {
                Seq::empty()
            }),
        fact_merged_notes()(vs, f) == vs
            + (if f.subject_merged {
                seq![ViolationView { edge: "fact.subject(merged)"@, rows: 1 }]
            } else {
                Seq::empty()
            })
            + (if f.object_id is Some && f.object_merged {
                seq![ViolationView { edge: "fact.object(merged)"@, rows: 1 }]
            } else {
                Seq::empty()
            }),
{
    broadcast use {lemma_noted_if, lemma_noted};

    assert(fact_notes(kb_id)(vs, f) == vs
        + entry(f.subject_kb != Some(kb_id), "fact.subject"@)
        + entry(f.object_id is Some && f.object_kb != Some(kb_id), "fact.object"@)
        + entry(f.predicate_id is Some && f.predicate_kb != Some(kb_id), "fact.predicate"@)
        + entry(f.supersedes is Some && f.supersedes_kb != Some(kb_id), "fact.supersedes"@)
        + entry(f.foreign_source, "fact.source"@)
        + entry(f.foreign_document, "evidence.document"@));
}

/// A derived fact is noted for each reference that leaves the knowledge base, its rule and premises among
/// them, and apart from these for each merged entity that it names.
pub proof fn derived_notes_say(vs: Seq<ViolationView>, d: ExportDerived, kb_id: Uuid)
    ensures
        derived_notes(kb_id)(vs, d) == vs
            + (if d.subject_kb != Some(kb_id) {
                seq![ViolationView { edge: "derived.subject"@, rows: 1 }]
            } else {
                Seq::empty()
            })
            + (if d.object_id is Some && d.object_kb != Some(kb_id) {
                seq![ViolationView { edge: "derived.object"@, rows: 1 }]
            } else {
                Seq::empty()
            })
            + (if d.predicate_kb != Some(kb_id) {
                seq![ViolationView { edge: "derived.predicate"@, rows: 1 }]
            } else {
                Seq::empty()
            })
            + (if d.rule_id is Some && d.rule_kb != Some(kb_id) {
                seq![ViolationView { edge: "derived.rule"@, rows: 1 }]
            } else {
                Seq::empty()
            })
            + (if d.attribute_rule_id is Some && d.attribute_rule_kb != Some(kb_id) {
                seq![ViolationView { edge: "derived.attribute_rule"@, rows: 1 }]
            } else {
                Seq::empty()
            })
            + (if d.foreign_fact_premise {
                seq![ViolationView { edge: "derivation.premise_fact"@, rows: 1 }]
            } else {
                Seq::empty()
            })
            + (if d.foreign_derived_premise {
                seq![ViolationView { edge: "derivation.premise_derived"@, rows: 1 }]
            } else {
                Seq::empty()
            }),
        derived_merged_notes()(vs, d) == vs
            + (if d.subject_merged {
                seq![ViolationView { edge: "derived.subject(merged)"@, rows: 1 }]
            } else {
                Seq::empty()
            })
            + (if d.object_id is Some && d.object_merged {
                seq![ViolationView { edge: "derived.object(merged)"@, rows: 1 }]
            } else {
                Seq::empty()
            }),
{
    broadcast use {lemma_noted_if, lemma_noted};

    assert(derived_notes(kb_id)(vs, d) == vs
        + entry(d.subject_kb != Some(kb_id), "derived.subject"@)
        + entry(d.object_id is Some && d.object_kb != Some(kb_id), "derived.object"@)
        + entry(d.predicate_kb != Some(kb_id), "derived.predicate"@)
        + entry(d.rule_id is Some && d.rule_kb != Some(kb_id), "derived.rule"@)
        + entry(d.attribute_rule_id is Some && d.attribute_rule_kb != Some(kb_id), "derived.attribute_rule"@)
        + entry(d.foreign_fact_premise, "derivation.premise_fact"@)
        + entry(d.foreign_derived_premise, "derivation.premise_derived"@));
}

/// The properties of edges and of open statements are noted for a type and an entity that leave the
/// knowledge base and for a merged entity, and a time mention for its own knowledge base and its
/// passage.
pub proof fn part_notes_say(
    vs: Seq<ViolationView>,
    q: ExportQualifierRow,
    p: ExportStatementQualifier,
    m: ExportTimeMention,
    kb_id: Uuid,
)
    ensures
        qualifier_notes(kb_id)(vs, q) == vs
            + (if q.type_kb != Some(kb_id) {
                seq![ViolationView { edge: "qualifier.type"@, rows: 1 }]
            } else {
                Seq::empty()
            })
            + (if q.entity_id is Some && q.entity_kb != Some(kb_id) {
                seq![ViolationView { edge: "qualifier.entity"@, rows: 1 }]
            } else {
                Seq::empty()
            }),
        qualifier_merged_notes()(vs, q) == vs
            + (if q.entity_id is Some && q.entity_merged {
                seq![ViolationView { edge: "qualifier.entity(merged)"@, rows: 1 }]
            } else {
                Seq::empty()
            }),
        property_notes(kb_id)(vs, p) == vs
            + (if p.entity_id is Some && p.entity_kb != Some(kb_id) {
                seq![ViolationView { edge: "squalifier.entity"@, rows: 1 }]
            } else {
                Seq::empty()
            }),
        property_merged_notes()(vs, p) == vs
            + (if p.entity_id is Some && p.entity_merged {
                seq![ViolationView { edge: "squalifier.entity(merged)"@, rows: 1 }]
            } else {
                Seq::empty()
            }),
        mention_notes(kb_id)(vs, m) == vs
            + (if m.kb_id != kb_id {
                seq![ViolationView { edge: "timemention.fact"@, rows: 1 }]
            } else {
                Seq::empty()
            })
            + (if m.chunk_kb != Some(kb_id) {
                seq![ViolationView { edge: "timemention.chunk"@, rows: 1 }]
            } else {
                Seq::empty()
            }),
{
    broadcast use {lemma_noted_if, lemma_noted};

}

/// Axioms, entities, versions, passages and evidence are noted for what they refer to, if it leaves the
/// knowledge base.
pub proof fn source_notes_say(
    vs: Seq<ViolationView>,
    r: ExportRule,
    e: ExportEntity,
    v: ExportDocumentVersion,
    c: ExportChunk,
    x: ExportEvidence,
    kb_id: Uuid,
)
    ensures
        rule_notes(kb_id)(vs, r) == vs
            + (if r.predicate_kb != Some(kb_id) {
                seq![ViolationView { edge: "rule.predicate"@, rows: 1 }]
            } else {
                Seq::empty()
            }),
        entity_notes(kb_id)(vs, e) == vs
            + (if e.type_id is Some && e.type_kb != Some(kb_id) {
                seq![ViolationView { edge: "entity.type"@, rows: 1 }]
            } else {
                Seq::empty()
            }),
        docversion_notes(kb_id)(vs, v) == vs
            + (if v.document_kb != Some(kb_id) {
                seq![ViolationView { edge: "docversion.document"@, rows: 1 }]
            } else {
                Seq::empty()
            }),
        chunk_notes(kb_id)(vs, c) == vs
            + (if c.document_kb != Some(kb_id) {
                seq![ViolationView { edge: "chunk.document"@, rows: 1 }]
            } else {
                Seq::empty()
            }),
        evidence_notes(kb_id)(vs, x) == vs
            + (if x.chunk_kb != Some(kb_id) {
                seq![ViolationView { edge: "evidence.chunk"@, rows: 1 }]
            } else {
                Seq::empty()
            })
            + (if x.document_id is Some && x.document_kb != Some(kb_id) {
                seq![ViolationView { edge: "evidence.document"@, rows: 1 }]
            } else {
                Seq::empty()
            }),
{
    broadcast use {lemma_noted_if, lemma_noted};

}

/// A business rule is noted for the class that it looks at and for the class and the relation that it
/// concludes, and a condition for its relation, if they leave the knowledge base.
pub proof fn rule_notes_say(
    vs: Seq<ViolationView>,
    r: ExportAttributeRule,
    c: ExportRuleCondition,
    kb_id: Uuid,
)
    ensures
        arule_notes(kb_id)(vs, r) == vs
            + (if r.subject_type_kb != Some(kb_id) {
                seq![ViolationView { edge: "arule.subject_type"@, rows: 1 }]
            } else {
                Seq::empty()
            })
            + (if r.conclude_type_id is Some && r.conclude_type_kb != Some(kb_id) {
                seq![ViolationView { edge: "arule.conclude_type"@, rows: 1 }]
            } else {
                Seq::empty()
            })
            + (if r.conclude_predicate_id is Some && r.conclude_predicate_kb != Some(kb_id) {
                seq![ViolationView { edge: "arule.conclude_predicate"@, rows: 1 }]
            } else {
                Seq::empty()
            }),
        condition_notes(kb_id)(vs, c) == vs
            + (if c.predicate_kb != Some(kb_id) {
                seq![ViolationView { edge: "condition.predicate"@, rows: 1 }]
            } else {
                Seq::empty()
            }),
{
    broadcast use {lemma_noted_if, lemma_noted};

}

/// A class is noted for its parents and disjoint classes that are not among the classes of the knowledge
/// base, and a relation for domains and ranges that are not among its classes and for an inverse, a
/// broader relation and properties that are not among its relations.
pub proof fn ontology_notes_say(
    vs: Seq<ViolationView>,
    types: Set<u128>,
    own: Set<u128>,
    c: ExportClass,
    r: ExportRelation,
)
    ensures
        class_notes(types)(vs, c) == vs
            + (if reported(unknown_count(types, c.parents@)) > 0 {
                seq![
                    ViolationView {
                        edge: "class.parent"@,
                        rows: reported(unknown_count(types, c.parents@)),
                    },
                ]
            } else {
                Seq::empty()
            })
            + (if reported(unknown_count(types, c.disjoint@)) > 0 {
                seq![
                    ViolationView {
                        edge: "class.disjoint"@,
                        rows: reported(unknown_count(types, c.disjoint@)),
                    },
                ]
            } else {
                Seq::empty()
            }),
        relation_notes(types, own)(vs, r) == vs
            + (if reported(unknown_count(types, r.domains@)) > 0 {
                seq![
                    ViolationView {
                        edge: "relation.domain"@,
                        rows: reported(unknown_count(types, r.domains@)),
                    },
                ]
            } else {
                Seq::empty()
            })
            + (if reported(unknown_count(types, r.ranges@)) > 0 {
                seq![
                    ViolationView {
                        edge: "relation.range"@,
                        rows: reported(unknown_count(types, r.ranges@)),
                    },
                ]
            } else {
                Seq::empty()
            })
            + (if r.inverse_of is Some && !own.contains(r.inverse_of->0.value) {
                seq![ViolationView { edge: "relation.inverse"@, rows: 1 }]
            } else {
                Seq::empty()
            })
            + (if r.sub_property_of is Some && !own.contains(r.sub_property_of->0.value) {
                seq![ViolationView { edge: "relation.sub_property"@, rows: 1 }]
            } else {
                Seq::empty()
            })
            + (if reported(unknown_count(own, r.qualifiers@)) > 0 {
                seq![
                    ViolationView {
                        edge: "relation.qualifier"@,
                        rows: reported(unknown_count(own, r.qualifiers@)),
                    },
                ]
            } else {
                Seq::empty()
            }),
{
    broadcast use {lemma_noted_if, lemma_noted};

}

/// What is unknown is counted once for each time that it stands in a list. (A count that no integer of
/// the report holds is reported as the largest one.)
pub proof fn unknown_references_are_counted(known: Set<u128>, ids: Seq<Uuid>)
    ensures
        unknown_count(known, ids) == ids.filter(|id: Uuid| !known.contains(id.value)).len(),
        unknown_count(known, ids) <= i64::MAX ==> reported(unknown_count(known, ids))
            == unknown_count(known, ids),
        unknown_count(known, ids) > i64::MAX ==> reported(unknown_count(known, ids)) == i64::MAX,
    decreases ids.len(),
{
    reveal(Seq::filter);
    if ids.len() > 0 {
        unknown_references_are_counted(known, ids.drop_last());
    }
}

/// The classes and relations of a knowledge base are known by their identifiers.
pub proof fn rows_are_known_by_their_identifiers(
    classes: Seq<ExportClass>,
    relations: Seq<ExportRelation>,
    ids: Seq<Uuid>,
    v: u128,
)
    ensures
        class_ids(classes).contains(v) <==> exists|i: int|
            0 <= i < classes.len() && (#[trigger] classes[i]).id.value == v,
        relation_ids(relations).contains(v) <==> exists|i: int|
            0 <= i < relations.len() && (#[trigger] relations[i]).id.value == v,
        id_set(ids).contains(v) <==> exists|i: int|
            0 <= i < ids.len() && (#[trigger] ids[i]).value == v,
{
}

/// The relations that formulas read are those of every formula that a rule concludes with and of
/// every threshold that is a formula, each as often as it stands there.
pub proof fn formulas_are_all_searched(
    rules: Seq<ExportAttributeRule>,
    conditions: Seq<ExportRuleCondition>,
    rule: ExportAttributeRule,
    condition: ExportRuleCondition,
)
    ensures
        rule_reads(Seq::empty()) == Seq::<Option<Uuid>>::empty(),
        rule.conclude_expr matches Some(e) ==> rule_reads(rules.push(rule)) == rule_reads(rules)
            + expr_ids(e@),
        rule.conclude_expr is None ==> rule_reads(rules.push(rule)) == rule_reads(rules),
        condition_reads(Seq::empty()) == Seq::<Option<Uuid>>::empty(),
        condition.operand matches Some(o) && o@ is Object ==> condition_reads(
            conditions.push(condition),
        ) == condition_reads(conditions) + expr_ids(condition.operand->0@),
        !(condition.operand matches Some(o) && o@ is Object) ==> condition_reads(
            conditions.push(condition),
        ) == condition_reads(conditions),
{
    assert(rules.push(rule).drop_last() =~= rules);
    assert(conditions.push(condition).drop_last() =~= conditions);
    assert(rule_reads(rules) + Seq::<Option<Uuid>>::empty() =~= rule_reads(rules));
    assert(condition_reads(conditions) + Seq::<Option<Uuid>>::empty() =~= condition_reads(conditions));
}

/// A relation that a formula reads counts as bad unless it spells an identifier and the last row for
/// that identifier belongs to the knowledge base.
pub proof fn foreign_reads_are_counted(
    rows: Seq<(Uuid, Option<Uuid>)>,
    row: (Uuid, Option<Uuid>),
    kb_id: Uuid,
    ids: Seq<Option<Uuid>>,
)
    ensures
        kbs_of(Seq::empty()) == Map::<u128, Option<Uuid>>::empty(),
        kbs_of(rows.push(row)) == kbs_of(rows).insert(row.0.value, row.1),
        bad_reads(kbs_of(rows), kb_id, ids) == ids.filter(
            |id: Option<Uuid>|
                !(id is Some && kbs_of(rows).dom().contains(id->0.value) && kbs_of(
                    rows,
                )[id->0.value] == Some(kb_id)),
        ).len(),
    decreases ids.len(),
{
    reveal(Seq::filter);
    assert(rows.push(row).drop_last() =~= rows);
    if ids.len() > 0 {
        foreign_reads_are_counted(rows, row, kb_id, ids.drop_last());
    }
}

/// The business rules are noted first, then their conditions, and then the formulas that read
/// something that is not of the knowledge base.
pub proof fn business_rules_are_noted_in_order(
    rules: Seq<ExportAttributeRule>,
    conditions: Seq<ExportRuleCondition>,
    relation_kbs: Seq<(Uuid, Option<Uuid>)>,
    kb_id: Uuid,
)
    ensures
        ({
            let before = note_each(
                note_each(Seq::empty(), rules, arule_notes(kb_id)),
                conditions,
                condition_notes(kb_id),
            );
            let bad = reported(
                bad_reads(
                    kbs_of(relation_kbs),
                    kb_id,
                    rule_reads(rules) + condition_reads(conditions),
                ),
            );
            arules_violations(rules, conditions, relation_kbs, kb_id) == (if bad > 0 {
                before.push(ViolationView { edge: "rule.expr_predicate"@, rows: bad })
            } else {
                before
            })
        }),
{
}

/// Each table is judged by its own rows: references that leave the knowledge base, and then
/// references to merged entities.
pub proof fn verdicts_come_from_the_notes(
    facts: Seq<ExportFact>,
    page: Seq<ExportDerived>,
    qs: Seq<ExportQualifierRow>,
    ps: Seq<ExportStatementQualifier>,
    ms: Seq<ExportTimeMention>,
    kb_id: Uuid,
)
    ensures
        facts_verdict(facts, kb_id) == verdict(
            note_each(Seq::empty(), facts, fact_notes(kb_id)),
            note_each(Seq::empty(), facts, fact_merged_notes()),
        ),
        deriveds_verdict(page, kb_id) == verdict(
            note_each(Seq::empty(), page, derived_notes(kb_id)),
            note_each(Seq::empty(), page, derived_merged_notes()),
        ),
        qualifiers_verdict(qs, kb_id) == verdict(
            note_each(Seq::empty(), qs, qualifier_notes(kb_id)),
            note_each(Seq::empty(), qs, qualifier_merged_notes()),
        ),
        properties_verdict(ps, kb_id) == verdict(
            note_each(Seq::empty(), ps, property_notes(kb_id)),
            note_each(Seq::empty(), ps, property_merged_notes()),
        ),
        mentions_verdict(ms, kb_id) == verdict(
            note_each(Seq::empty(), ms, mention_notes(kb_id)),
            Seq::empty(),
        ),
{
}

} // verus!
