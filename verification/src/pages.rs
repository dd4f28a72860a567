//! The pages of an export: each row is held to the knowledge base before it is handed on.
use crate::integrity::{
    foreign, judge, leaves, noted, noted_if, tally, tally_if, verdict, views, AppError,
    CrossKbViolation, ViolationView,
};
use crate::rows::{
    ExportChunk, ExportClass, ExportDocumentVersion, ExportEntity, ExportEvidence, ExportRelation,
    ExportRule,
};
use crate::uuid::Uuid;
use std::collections::HashSet;
use vstd::prelude::*;

verus! {

broadcast use vstd::std_specs::hash::group_hash_axioms;

/// How many rows are read at a time.
pub const PAGE: i64 = 500;

/// The violations in `vs` and those of each row, in order.
pub open spec fn note_each<T>(
    vs: Seq<ViolationView>,
    rows: Seq<T>,
    f: spec_fn(Seq<ViolationView>, T) -> Seq<ViolationView>,
) -> Seq<ViolationView>
    decreases rows.len(),
{
    if rows.len() == 0 {
        vs
    } else {
        f(note_each(vs, rows.drop_last(), f), rows.last())
    }
}

/// One row more.
pub proof fn lemma_note_next<T>(
    vs: Seq<ViolationView>,
    rows: Seq<T>,
    f: spec_fn(Seq<ViolationView>, T) -> Seq<ViolationView>,
    i: int,
)
    requires
        0 <= i < rows.len(),
    ensures
        note_each(vs, rows.take(i + 1), f) == f(note_each(vs, rows.take(i), f), rows[i]),
{
    assert(rows.take(i + 1).drop_last() =~= rows.take(i));
}

/// A page is handed on unchanged, or the export is refused for these violations.
pub open spec fn page_result<T>(
    page: Vec<T>,
    result: Result<Vec<T>, AppError>,
    foreign: Seq<ViolationView>,
) -> bool {
    match result {
        Ok(out) => verdict(foreign, Seq::empty()) is None && out == page,
        Err(e) => verdict(foreign, Seq::empty()) == Some(e@),
    }
}

fn hand_on<T>(page: Vec<T>, violations: &Vec<CrossKbViolation>) -> (r: Result<Vec<T>, AppError>)
    ensures
        page_result(page, r, views(violations@)),
{
    let none: Vec<CrossKbViolation> = Vec::new();
    proof {
        assert(views(none@) =~= Seq::empty());
    }
    judge(violations, &none)?;
    Ok(page)
}

// ---- References within the ontology ----

/// How many of the identifiers are unknown.
pub open spec fn unknown_count(known: Set<u128>, ids: Seq<Uuid>) -> nat
    decreases ids.len(),
{
    if ids.len() == 0 {
        0
    } else {
        unknown_count(known, ids.drop_last()) + (if known.contains(ids.last().value) {
            0nat
        } else {
            1nat
        })
    }
}

/// The count as it is reported. No list is ever longer than the largest count.
pub open spec fn reported(n: nat) -> int {
    if n > i64::MAX {
        i64::MAX as int
    } else {
        n as int
    }
}

fn count_unknown(known: &HashSet<u128>, ids: &Vec<Uuid>) -> (n: i64)
    ensures
        n == reported(unknown_count(known@, ids@)),
{
    let mut n: i64 = 0;
    let mut i: usize = 0;
    proof {
        assert(ids@.take(0) =~= Seq::empty());
    }
    while i < ids.len()
        invariant
            i <= ids@.len(),
            n == reported(unknown_count(known@, ids@.take(i as int))),
        decreases ids@.len() - i,
    {
        proof {
            assert(ids@.take(i + 1).drop_last() =~= ids@.take(i as int));
        }
        if !known.contains(&ids[i].value) && n < i64::MAX {
            n += 1;
        }
        i += 1;
    }
    proof {
        assert(ids@.take(i as int) =~= ids@);
    }
    n
}

/// The identifiers of some classes.
pub open spec fn class_ids(classes: Seq<ExportClass>) -> Set<u128> {
    Set::new(|v: u128| exists|i: int| 0 <= i < classes.len() && (#[trigger] classes[i]).id.value == v)
}

/// The identifiers of some relations.
pub open spec fn relation_ids(relations: Seq<ExportRelation>) -> Set<u128> {
    Set::new(
        |v: u128| exists|i: int| 0 <= i < relations.len() && (#[trigger] relations[i]).id.value == v,
    )
}

/// The identifiers in a list.
pub open spec fn id_set(ids: Seq<Uuid>) -> Set<u128> {
    Set::new(|v: u128| exists|i: int| 0 <= i < ids.len() && (#[trigger] ids[i]).value == v)
}

fn known_ids(ids: &Vec<Uuid>) -> (known: HashSet<u128>)
    ensures
        known@ == id_set(ids@),
{
    let mut known: HashSet<u128> = HashSet::new();
    let mut i: usize = 0;
    proof {
        assert(known@ =~= id_set(ids@.take(0)));
    }
    while i < ids.len()
        invariant
            i <= ids@.len(),
            known@ == id_set(ids@.take(i as int)),
        decreases ids@.len() - i,
    {
        known.insert(ids[i].value);
        proof {
            let before = id_set(ids@.take(i as int));
            let now = id_set(ids@.take(i + 1));
            assert forall|v: u128| before.insert(ids@[i as int].value).contains(v) <==> now.contains(v) by {
                if before.contains(v) {
                    let j = choose|j: int| 0 <= j < i && (#[trigger] ids@.take(i as int)[j]).value == v;
                    assert(ids@.take(i + 1)[j].value == v);
                }
                if v == ids@[i as int].value {
                    assert(ids@.take(i + 1)[i as int].value == v);
                }
                if now.contains(v) {
                    let j = choose|j: int| 0 <= j < i + 1 && (#[trigger] ids@.take(i + 1)[j]).value == v;
                    if j < i {
                        assert(ids@.take(i as int)[j].value == v);
                    }
                }
            }
            assert(known@ =~= now);
        }
        i += 1;
    }
    proof {
        assert(ids@.take(i as int) =~= ids@);
    }
    known
}

fn ids_of_classes(classes: &Vec<ExportClass>) -> (ids: Vec<Uuid>)
    ensures
        id_set(ids@) == class_ids(classes@),
{
    let mut ids: Vec<Uuid> = Vec::new();
    let mut i: usize = 0;
    while i < classes.len()
        invariant
            i <= classes@.len(),
            ids@.len() == i,
            forall|j: int| 0 <= j < i ==> #[trigger] ids@[j] == classes@[j].id,
        decreases classes@.len() - i,
    {
        ids.push(classes[i].id);
        i += 1;
    }
    proof {
        assert forall|v: u128| id_set(ids@).contains(v) <==> class_ids(classes@).contains(v) by {
            if id_set(ids@).contains(v) {
                let j = choose|j: int| 0 <= j < ids@.len() && (#[trigger] ids@[j]).value == v;
                assert(classes@[j].id.value == v);
            }
            if class_ids(classes@).contains(v) {
                let j = choose|j: int| 0 <= j < classes@.len() && (#[trigger] classes@[j]).id.value == v;
                assert(ids@[j].value == v);
            }
        }
        assert(id_set(ids@) =~= class_ids(classes@));
    }
    ids
}

fn ids_of_relations(relations: &Vec<ExportRelation>) -> (ids: Vec<Uuid>)
    ensures
        id_set(ids@) == relation_ids(relations@),
{
    let mut ids: Vec<Uuid> = Vec::new();
    let mut i: usize = 0;
    while i < relations.len()
        invariant
            i <= relations@.len(),
            ids@.len() == i,
            forall|j: int| 0 <= j < i ==> #[trigger] ids@[j] == relations@[j].id,
        decreases relations@.len() - i,
    {
        ids.push(relations[i].id);
        i += 1;
    }
    proof {
        assert forall|v: u128| id_set(ids@).contains(v) <==> relation_ids(relations@).contains(v) by {
            if id_set(ids@).contains(v) {
                let j = choose|j: int| 0 <= j < ids@.len() && (#[trigger] ids@[j]).value == v;
                assert(relations@[j].id.value == v);
            }
            if relation_ids(relations@).contains(v) {
                let j = choose|j: int|
                    0 <= j < relations@.len() && (#[trigger] relations@[j]).id.value == v;
                assert(ids@[j].value == v);
            }
        }
        assert(id_set(ids@) =~= relation_ids(relations@));
    }
    ids
}

/// The violations of a class: parents and disjoint classes that are not classes of the knowledge
/// base.
pub open spec fn class_notes(
    own: Set<u128>,
) -> spec_fn(Seq<ViolationView>, ExportClass) -> Seq<ViolationView,
> {
    |vs: Seq<ViolationView>, c: ExportClass|
        noted(
            noted(vs, "class.parent"@, reported(unknown_count(own, c.parents@))),
            "class.disjoint"@,
            reported(unknown_count(own, c.disjoint@)),
        )
}

/// The violations of all classes of a knowledge base.
pub open spec fn classes_violations(classes: Seq<ExportClass>) -> Seq<ViolationView> {
    note_each(Seq::empty(), classes, class_notes(class_ids(classes)))
}

/// Holds the classes of a knowledge base against each other.
pub fn classes(rows: Vec<ExportClass>) -> (r: Result<Vec<ExportClass>, AppError>)
    ensures
        page_result(rows, r, classes_violations(rows@)),
{
    let own: HashSet<u128> = known_ids(&ids_of_classes(&rows));
    let ghost f = class_notes(own@);
    let mut violations: Vec<CrossKbViolation> = Vec::new();
    let mut i: usize = 0;
    proof {
        assert(views(violations@) =~= Seq::empty());
    }
    while i < rows.len()
        invariant
            i <= rows@.len(),
            f == class_notes(own@),
            views(violations@) == note_each(Seq::empty(), rows@.take(i as int), f),
        decreases rows@.len() - i,
    {
        proof {
            lemma_note_next(Seq::empty(), rows@, f, i as int);
        }
        tally(&mut violations, "class.parent", count_unknown(&own, &rows[i].parents));
        tally(&mut violations, "class.disjoint", count_unknown(&own, &rows[i].disjoint));
        i += 1;
    }
    proof {
        assert(rows@.take(i as int) =~= rows@);
    }
    hand_on(rows, &violations)
}

/// A reference to a relation is unknown.
pub open spec fn unknown_ref(known: Set<u128>, id: Option<Uuid>) -> bool {
    id matches Some(i) && !known.contains(i.value)
}

/// The violations of a relation: domains and ranges that are not classes of the knowledge base, and
/// an inverse, a broader relation and properties that are not relations of it.
pub open spec fn relation_notes(types: Set<u128>, own: Set<u128>) -> spec_fn(
    Seq<ViolationView>,
    ExportRelation,
) -> Seq<ViolationView> {
    |vs: Seq<ViolationView>, r: ExportRelation|
        {
            let vs = noted(vs, "relation.domain"@, reported(unknown_count(types, r.domains@)));
            let vs = noted(vs, "relation.range"@, reported(unknown_count(types, r.ranges@)));
            let vs = noted_if(vs, "relation.inverse"@, unknown_ref(own, r.inverse_of));
            let vs = noted_if(vs, "relation.sub_property"@, unknown_ref(own, r.sub_property_of));
            noted(vs, "relation.qualifier"@, reported(unknown_count(own, r.qualifiers@)))
        }
}

/// The violations of all relations of a knowledge base, whose classes have these identifiers.
pub open spec fn relations_violations(
    relations: Seq<ExportRelation>,
    own_types: Seq<Uuid>,
) -> Seq<ViolationView,
> {
    note_each(
        Seq::empty(),
        relations,
        relation_notes(id_set(own_types), relation_ids(relations)),
    )
}

fn is_unknown(known: &HashSet<u128>, id: Option<Uuid>) -> (b: bool)
    ensures
        b == unknown_ref(known@, id),
{
    match id {
        Some(i) => !known.contains(&i.value),
        None => false,
    }
}

/// Holds the relations of a knowledge base against its classes and against each other.
pub fn relations(
    rows: Vec<ExportRelation>,
    own_types: &Vec<Uuid>,
) -> (r: Result<Vec<ExportRelation>,
    AppError,
>)
    ensures
        page_result(rows, r, relations_violations(rows@, own_types@)),
{
    let types: HashSet<u128> = known_ids(own_types);
    let own: HashSet<u128> = known_ids(&ids_of_relations(&rows));
    let ghost f = relation_notes(types@, own@);
    let mut violations: Vec<CrossKbViolation> = Vec::new();
    let mut i: usize = 0;
    proof {
        assert(views(violations@) =~= Seq::empty());
    }
    while i < rows.len()
        invariant
            i <= rows@.len(),
            f == relation_notes(types@, own@),
            views(violations@) == note_each(Seq::empty(), rows@.take(i as int), f),
        decreases rows@.len() - i,
    {
        proof {
            lemma_note_next(Seq::empty(), rows@, f, i as int);
        }
        tally(&mut violations, "relation.domain", count_unknown(&types, &rows[i].domains));
        tally(&mut violations, "relation.range", count_unknown(&types, &rows[i].ranges));
        tally_if(&mut violations, "relation.inverse", is_unknown(&own, rows[i].inverse_of));
        tally_if(&mut violations, "relation.sub_property", is_unknown(&own, rows[i].sub_property_of));
        tally(&mut violations, "relation.qualifier", count_unknown(&own, &rows[i].qualifiers));
        i += 1;
    }
    proof {
        assert(rows@.take(i as int) =~= rows@);
    }
    hand_on(rows, &violations)
}

// ---- References between tables ----

/// The violation of an axiom: its relation belongs to another knowledge base.
pub open spec fn rule_notes(
    kb_id: Uuid,
) -> spec_fn(Seq<ViolationView>, ExportRule) -> Seq<ViolationView,
> {
    |vs: Seq<ViolationView>, r: ExportRule|
        noted_if(vs, "rule.predicate"@, leaves(r.predicate_kb, kb_id))
}

/// Holds the axioms to the knowledge base.
pub fn rules(rows: Vec<ExportRule>, kb_id: Uuid) -> (r: Result<Vec<ExportRule>, AppError>)
    ensures
        page_result(rows, r, note_each(Seq::empty(), rows@, rule_notes(kb_id))),
{
    let ghost f = rule_notes(kb_id);
    let mut violations: Vec<CrossKbViolation> = Vec::new();
    let mut i: usize = 0;
    proof {
        assert(views(violations@) =~= Seq::empty());
    }
    while i < rows.len()
        invariant
            i <= rows@.len(),
            f == rule_notes(kb_id),
            views(violations@) == note_each(Seq::empty(), rows@.take(i as int), f),
        decreases rows@.len() - i,
    {
        proof {
            lemma_note_next(Seq::empty(), rows@, f, i as int);
        }
        tally_if(&mut violations, "rule.predicate", foreign(rows[i].predicate_kb, kb_id));
        i += 1;
    }
    proof {
        assert(rows@.take(i as int) =~= rows@);
    }
    hand_on(rows, &violations)
}

/// The violation of an entity: its type belongs to another knowledge base. An entity may have no
/// type.
pub open spec fn entity_notes(
    kb_id: Uuid,
) -> spec_fn(Seq<ViolationView>, ExportEntity) -> Seq<ViolationView,
> {
    |vs: Seq<ViolationView>, e: ExportEntity|
        noted_if(vs, "entity.type"@, e.type_id is Some && leaves(e.type_kb, kb_id))
}

/// Holds a page of entities to the knowledge base.
pub fn entities_page(
    page: Vec<ExportEntity>,
    kb_id: Uuid,
) -> (r: Result<Vec<ExportEntity>, AppError>)
    ensures
        page_result(page, r, note_each(Seq::empty(), page@, entity_notes(kb_id))),
{
    let ghost f = entity_notes(kb_id);
    let mut violations: Vec<CrossKbViolation> = Vec::new();
    let mut i: usize = 0;
    proof {
        assert(views(violations@) =~= Seq::empty());
    }
    while i < page.len()
        invariant
            i <= page@.len(),
            f == entity_notes(kb_id),
            views(violations@) == note_each(Seq::empty(), page@.take(i as int), f),
        decreases page@.len() - i,
    {
        proof {
            lemma_note_next(Seq::empty(), page@, f, i as int);
        }
        tally_if(
            &mut violations,
            "entity.type",
            page[i].type_id.is_some() && foreign(page[i].type_kb, kb_id),
        );
        i += 1;
    }
    proof {
        assert(page@.take(i as int) =~= page@);
    }
    hand_on(page, &violations)
}

/// The violation of a version: its document belongs to another knowledge base.
pub open spec fn docversion_notes(kb_id: Uuid) -> spec_fn(
    Seq<ViolationView>,
    ExportDocumentVersion,
) -> Seq<ViolationView> {
    |vs: Seq<ViolationView>, v: ExportDocumentVersion|
        noted_if(vs, "docversion.document"@, leaves(v.document_kb, kb_id))
}

/// Holds a page of document versions to the knowledge base.
pub fn document_versions_page(
    page: Vec<ExportDocumentVersion>,
    kb_id: Uuid,
) -> (r: Result<Vec<ExportDocumentVersion>,
    AppError,
>)
    ensures
        page_result(page, r, note_each(Seq::empty(), page@, docversion_notes(kb_id))),
{
    let ghost f = docversion_notes(kb_id);
    let mut violations: Vec<CrossKbViolation> = Vec::new();
    let mut i: usize = 0;
    proof {
        assert(views(violations@) =~= Seq::empty());
    }
    while i < page.len()
        invariant
            i <= page@.len(),
            f == docversion_notes(kb_id),
            views(violations@) == note_each(Seq::empty(), page@.take(i as int), f),
        decreases page@.len() - i,
    {
        proof {
            lemma_note_next(Seq::empty(), page@, f, i as int);
        }
        tally_if(&mut violations, "docversion.document", foreign(page[i].document_kb, kb_id));
        i += 1;
    }
    proof {
        assert(page@.take(i as int) =~= page@);
    }
    hand_on(page, &violations)
}

/// The violation of a passage: its document belongs to another knowledge base.
pub open spec fn chunk_notes(
    kb_id: Uuid,
) -> spec_fn(Seq<ViolationView>, ExportChunk) -> Seq<ViolationView,
> {
    |vs: Seq<ViolationView>, c: ExportChunk|
        noted_if(vs, "chunk.document"@, leaves(c.document_kb, kb_id))
}

/// Holds a page of passages to the knowledge base.
pub fn chunks_page(page: Vec<ExportChunk>, kb_id: Uuid) -> (r: Result<Vec<ExportChunk>, AppError>)
    ensures
        page_result(page, r, note_each(Seq::empty(), page@, chunk_notes(kb_id))),
{
    let ghost f = chunk_notes(kb_id);
    let mut violations: Vec<CrossKbViolation> = Vec::new();
    let mut i: usize = 0;
    proof {
        assert(views(violations@) =~= Seq::empty());
    }
    while i < page.len()
        invariant
            i <= page@.len(),
            f == chunk_notes(kb_id),
            views(violations@) == note_each(Seq::empty(), page@.take(i as int), f),
        decreases page@.len() - i,
    {
        proof {
            lemma_note_next(Seq::empty(), page@, f, i as int);
        }
        tally_if(&mut violations, "chunk.document", foreign(page[i].document_kb, kb_id));
        i += 1;
    }
    proof {
        assert(page@.take(i as int) =~= page@);
    }
    hand_on(page, &violations)
}

/// The violations of a piece of evidence: its passage, or the document it names, belongs to another
/// knowledge base.
pub open spec fn evidence_notes(
    kb_id: Uuid,
) -> spec_fn(Seq<ViolationView>, ExportEvidence) -> Seq<ViolationView,
> {
    |vs: Seq<ViolationView>, e: ExportEvidence|
        noted_if(
            noted_if(vs, "evidence.chunk"@, leaves(e.chunk_kb, kb_id)),
            "evidence.document"@,
            e.document_id is Some && leaves(e.document_kb, kb_id),
        )
}

/// Holds a page of evidence to the knowledge base.
pub fn evidence_page(page: Vec<ExportEvidence>, kb_id: Uuid) -> (r: Result<Vec<ExportEvidence>,
    AppError,
>)
    ensures
        page_result(page, r, note_each(Seq::empty(), page@, evidence_notes(kb_id))),
{
    let ghost f = evidence_notes(kb_id);
    let mut violations: Vec<CrossKbViolation> = Vec::new();
    let mut i: usize = 0;
    proof {
        assert(views(violations@) =~= Seq::empty());
    }
    while i < page.len()
        invariant
            i <= page@.len(),
            f == evidence_notes(kb_id),
            views(violations@) == note_each(Seq::empty(), page@.take(i as int), f),
        decreases page@.len() - i,
    {
        proof {
            lemma_note_next(Seq::empty(), page@, f, i as int);
        }
        tally_if(&mut violations, "evidence.chunk", foreign(page[i].chunk_kb, kb_id));
        tally_if(
            &mut violations,
            "evidence.document",
            page[i].document_id.is_some() && foreign(page[i].document_kb, kb_id),
        );
        i += 1;
    }
    proof {
        assert(page@.take(i as int) =~= page@);
    }
    hand_on(page, &violations)
}

} // verus!
