//! Whole pages of an export, and what it takes to name their rows.
use crate::emit_derived::{derived_steps, emit_derived};
use crate::emit_fact::{emit_fact, fact_steps};
use crate::emit_ontology::{
    class_steps, emit_class, emit_relation, emit_rule, relation_steps, rule_steps,
};
use crate::emit_rules::{attribute_rule_steps, emit_attribute_rule};
use crate::emit_sources::{
    chunk_steps, document_steps, docversion_steps, emit_chunk, emit_document, emit_docversion,
    emit_entity, emit_evidence, entity_steps, evidence_steps,
};
use crate::names::Names;
use crate::rows::{
    ExportAttributeRule, ExportChunk, ExportClass, ExportDerived, ExportDocument,
    ExportDocumentVersion, ExportEntity, ExportEvidence, ExportFact, ExportRelation, ExportRule,
};
use crate::sink::Sink;
use crate::steps::{each, group_steps, lemma_each_stops, took, wrote, Refused, Step};
use crate::term::iri_valid;
use crate::time::DateTime;
use crate::vocabulary::{all_named, vocabulary, vocabulary_of, Vocabulary};
use vstd::prelude::*;

verus! {

broadcast use group_steps;

/// A page of rows of one table.
#[derive(Debug)]
pub enum Page {
    Classes(Vec<ExportClass>),
    Relations(Vec<ExportRelation>),
    Rules(Vec<ExportRule>),
    AttributeRules(Vec<ExportAttributeRule>),
    Documents(Vec<ExportDocument>),
    DocumentVersions(Vec<ExportDocumentVersion>),
    Chunks(Vec<ExportChunk>),
    Entities(Vec<ExportEntity>),
    Facts(Vec<ExportFact>),
    Evidence(Vec<ExportEvidence>),
    Derived(Vec<ExportDerived>),
}

/// The steps for the `i`-th class of a page.
pub open spec fn class_row_at(
    vocab: Vocabulary,
    rows: Seq<ExportClass>,
) -> spec_fn(int) -> Seq<Step> {
    |i: int| class_steps(vocab, rows[i])
}

/// The steps for the `i`-th relation of a page.
pub open spec fn relation_row_at(
    vocab: Vocabulary,
    rows: Seq<ExportRelation>,
) -> spec_fn(int) -> Seq<Step> {
    |i: int| relation_steps(vocab, rows[i])
}

/// The steps for the `i`-th axiom of a page.
pub open spec fn rule_row_at(
    names: Names,
    vocab: Vocabulary,
    rows: Seq<ExportRule>,
) -> spec_fn(int) -> Seq<Step> {
    |i: int| rule_steps(names, vocab, rows[i])
}

/// The steps for the `i`-th business rule of a page.
pub open spec fn attribute_rule_row_at(
    names: Names,
    vocab: Vocabulary,
    rows: Seq<ExportAttributeRule>,
) -> spec_fn(int) -> Seq<Step> {
    |i: int| attribute_rule_steps(names, vocab, rows[i])
}

/// The steps for the `i`-th document of a page.
pub open spec fn document_row_at(
    names: Names,
    rows: Seq<ExportDocument>,
) -> spec_fn(int) -> Seq<Step> {
    |i: int| document_steps(names, rows[i])
}

/// The steps for the `i`-th version of a page.
pub open spec fn docversion_row_at(
    names: Names,
    rows: Seq<ExportDocumentVersion>,
) -> spec_fn(int) -> Seq<Step> {
    |i: int| docversion_steps(names, rows[i])
}

/// The steps for the `i`-th passage of a page.
pub open spec fn chunk_row_at(names: Names, rows: Seq<ExportChunk>) -> spec_fn(int) -> Seq<Step> {
    |i: int| chunk_steps(names, rows[i])
}

/// The steps for the `i`-th entity of a page.
pub open spec fn entity_row_at(
    names: Names,
    vocab: Vocabulary,
    rows: Seq<ExportEntity>,
) -> spec_fn(int) -> Seq<Step> {
    |i: int| entity_steps(names, vocab, rows[i])
}

/// The steps for the `i`-th fact of a page.
pub open spec fn fact_row_at(
    names: Names,
    vocab: Vocabulary,
    now: DateTime,
    rows: Seq<ExportFact>,
) -> spec_fn(int) -> Seq<Step> {
    |i: int| fact_steps(names, vocab, rows[i], now)
}

/// The steps for the `i`-th piece of evidence of a page.
pub open spec fn evidence_row_at(
    names: Names,
    rows: Seq<ExportEvidence>,
) -> spec_fn(int) -> Seq<Step> {
    |i: int| evidence_steps(names, rows[i])
}

/// The steps for the `i`-th derived fact of a page.
pub open spec fn derived_row_at(
    names: Names,
    vocab: Vocabulary,
    rows: Seq<ExportDerived>,
) -> spec_fn(int) -> Seq<Step> {
    |i: int| derived_steps(names, vocab, rows[i])
}

/// The steps for a page: those of its rows, in order.
pub open spec fn page_steps(
    names: Names,
    vocab: Vocabulary,
    page: Page,
    now: DateTime,
) -> Seq<Step> {
    match page {
        Page::Classes(rows) => each(rows@.len(), class_row_at(vocab, rows@)),
        Page::Relations(rows) => each(rows@.len(), relation_row_at(vocab, rows@)),
        Page::Rules(rows) => each(rows@.len(), rule_row_at(names, vocab, rows@)),
        Page::AttributeRules(rows) => each(rows@.len(), attribute_rule_row_at(names, vocab, rows@)),
        Page::Documents(rows) => each(rows@.len(), document_row_at(names, rows@)),
        Page::DocumentVersions(rows) => each(rows@.len(), docversion_row_at(names, rows@)),
        Page::Chunks(rows) => each(rows@.len(), chunk_row_at(names, rows@)),
        Page::Entities(rows) => each(rows@.len(), entity_row_at(names, vocab, rows@)),
        Page::Facts(rows) => each(rows@.len(), fact_row_at(names, vocab, now, rows@)),
        Page::Evidence(rows) => each(rows@.len(), evidence_row_at(names, rows@)),
        Page::Derived(rows) => each(rows@.len(), derived_row_at(names, vocab, rows@)),
    }
}

fn emit_class_rows(
    sink: &mut Sink,
    vocab: &Vocabulary,
    rows: &Vec<ExportClass>,
) -> (r: Result<(), Refused>)
    requires
        old(sink).wf(),
    ensures
        took(*old(sink), *final(sink), r, each(rows@.len(), class_row_at(*vocab, rows@))),
{
    let ghost f = class_row_at(*vocab, rows@);
    let mut i: usize = 0;
    while i < rows.len()
        invariant
            i <= rows@.len(),
            f == class_row_at(*vocab, rows@),
            sink.wf(),
            wrote(*old(sink), *sink, each(i as nat, f)),
        decreases rows@.len() - i,
    {
        proof {
            assert(each((i + 1) as nat, f) == each(i as nat, f) + f(i as int));
        }
        let r = emit_class(sink, vocab, &rows[i]);
        if r.is_err() {
            proof {
                lemma_each_stops((i + 1) as nat, rows@.len(), f);
            }
            return r;
        }
        i += 1;
    }
    Ok(())
}

fn emit_relation_rows(
    sink: &mut Sink,
    vocab: &Vocabulary,
    rows: &Vec<ExportRelation>,
) -> (r: Result<(), Refused>)
    requires
        old(sink).wf(),
    ensures
        took(*old(sink), *final(sink), r, each(rows@.len(), relation_row_at(*vocab, rows@))),
{
    let ghost f = relation_row_at(*vocab, rows@);
    let mut i: usize = 0;
    while i < rows.len()
        invariant
            i <= rows@.len(),
            f == relation_row_at(*vocab, rows@),
            sink.wf(),
            wrote(*old(sink), *sink, each(i as nat, f)),
        decreases rows@.len() - i,
    {
        proof {
            assert(each((i + 1) as nat, f) == each(i as nat, f) + f(i as int));
        }
        let r = emit_relation(sink, vocab, &rows[i]);
        if r.is_err() {
            proof {
                lemma_each_stops((i + 1) as nat, rows@.len(), f);
            }
            return r;
        }
        i += 1;
    }
    Ok(())
}

fn emit_rule_rows(
    sink: &mut Sink,
    names: &Names,
    vocab: &Vocabulary,
    rows: &Vec<ExportRule>,
) -> (r: Result<(), Refused>)
    requires
        old(sink).wf(),
    ensures
        took(*old(sink), *final(sink), r, each(rows@.len(), rule_row_at(*names, *vocab, rows@))),
{
    let ghost f = rule_row_at(*names, *vocab, rows@);
    let mut i: usize = 0;
    while i < rows.len()
        invariant
            i <= rows@.len(),
            f == rule_row_at(*names, *vocab, rows@),
            sink.wf(),
            wrote(*old(sink), *sink, each(i as nat, f)),
        decreases rows@.len() - i,
    {
        proof {
            assert(each((i + 1) as nat, f) == each(i as nat, f) + f(i as int));
        }
        let r = emit_rule(sink, names, vocab, &rows[i]);
        if r.is_err() {
            proof {
                lemma_each_stops((i + 1) as nat, rows@.len(), f);
            }
            return r;
        }
        i += 1;
    }
    Ok(())
}

fn emit_attribute_rule_rows(
    sink: &mut Sink,
    names: &Names,
    vocab: &Vocabulary,
    rows: &Vec<ExportAttributeRule>,
) -> (r: Result<(), Refused>)
    requires
        old(sink).wf(),
    ensures
        took(*old(sink), *final(sink), r, each(rows@.len(), attribute_rule_row_at(*names, *vocab, rows@))),
{
    let ghost f = attribute_rule_row_at(*names, *vocab, rows@);
    let mut i: usize = 0;
    while i < rows.len()
        invariant
            i <= rows@.len(),
            f == attribute_rule_row_at(*names, *vocab, rows@),
            sink.wf(),
            wrote(*old(sink), *sink, each(i as nat, f)),
        decreases rows@.len() - i,
    {
        proof {
            assert(each((i + 1) as nat, f) == each(i as nat, f) + f(i as int));
        }
        let r = emit_attribute_rule(sink, names, vocab, &rows[i]);
        if r.is_err() {
            proof {
                lemma_each_stops((i + 1) as nat, rows@.len(), f);
            }
            return r;
        }
        i += 1;
    }
    Ok(())
}

fn emit_document_rows(
    sink: &mut Sink,
    names: &Names,
    rows: &Vec<ExportDocument>,
) -> (r: Result<(), Refused>)
    requires
        old(sink).wf(),
    ensures
        took(*old(sink), *final(sink), r, each(rows@.len(), document_row_at(*names, rows@))),
{
    let ghost f = document_row_at(*names, rows@);
    let mut i: usize = 0;
    while i < rows.len()
        invariant
            i <= rows@.len(),
            f == document_row_at(*names, rows@),
            sink.wf(),
            wrote(*old(sink), *sink, each(i as nat, f)),
        decreases rows@.len() - i,
    {
        proof {
            assert(each((i + 1) as nat, f) == each(i as nat, f) + f(i as int));
        }
        let r = emit_document(sink, names, &rows[i]);
        if r.is_err() {
            proof {
                lemma_each_stops((i + 1) as nat, rows@.len(), f);
            }
            return r;
        }
        i += 1;
    }
    Ok(())
}

fn emit_docversion_rows(
    sink: &mut Sink,
    names: &Names,
    rows: &Vec<ExportDocumentVersion>,
) -> (r: Result<(), Refused>)
    requires
        old(sink).wf(),
    ensures
        took(*old(sink), *final(sink), r, each(rows@.len(), docversion_row_at(*names, rows@))),
{
    let ghost f = docversion_row_at(*names, rows@);
    let mut i: usize = 0;
    while i < rows.len()
        invariant
            i <= rows@.len(),
            f == docversion_row_at(*names, rows@),
            sink.wf(),
            wrote(*old(sink), *sink, each(i as nat, f)),
        decreases rows@.len() - i,
    {
        proof {
            assert(each((i + 1) as nat, f) == each(i as nat, f) + f(i as int));
        }
        let r = emit_docversion(sink, names, &rows[i]);
        if r.is_err() {
            proof {
                lemma_each_stops((i + 1) as nat, rows@.len(), f);
            }
            return r;
        }
        i += 1;
    }
    Ok(())
}

fn emit_chunk_rows(
    sink: &mut Sink,
    names: &Names,
    rows: &Vec<ExportChunk>,
) -> (r: Result<(), Refused>)
    requires
        old(sink).wf(),
    ensures
        took(*old(sink), *final(sink), r, each(rows@.len(), chunk_row_at(*names, rows@))),
{
    let ghost f = chunk_row_at(*names, rows@);
    let mut i: usize = 0;
    while i < rows.len()
        invariant
            i <= rows@.len(),
            f == chunk_row_at(*names, rows@),
            sink.wf(),
            wrote(*old(sink), *sink, each(i as nat, f)),
        decreases rows@.len() - i,
    {
        proof {
            assert(each((i + 1) as nat, f) == each(i as nat, f) + f(i as int));
        }
        let r = emit_chunk(sink, names, &rows[i]);
        if r.is_err() {
            proof {
                lemma_each_stops((i + 1) as nat, rows@.len(), f);
            }
            return r;
        }
        i += 1;
    }
    Ok(())
}

fn emit_entity_rows(
    sink: &mut Sink,
    names: &Names,
    vocab: &Vocabulary,
    rows: &Vec<ExportEntity>,
) -> (r: Result<(), Refused>)
    requires
        old(sink).wf(),
    ensures
        took(*old(sink), *final(sink), r, each(rows@.len(), entity_row_at(*names, *vocab, rows@))),
{
    let ghost f = entity_row_at(*names, *vocab, rows@);
    let mut i: usize = 0;
    while i < rows.len()
        invariant
            i <= rows@.len(),
            f == entity_row_at(*names, *vocab, rows@),
            sink.wf(),
            wrote(*old(sink), *sink, each(i as nat, f)),
        decreases rows@.len() - i,
    {
        proof {
            assert(each((i + 1) as nat, f) == each(i as nat, f) + f(i as int));
        }
        let r = emit_entity(sink, names, vocab, &rows[i]);
        if r.is_err() {
            proof {
                lemma_each_stops((i + 1) as nat, rows@.len(), f);
            }
            return r;
        }
        i += 1;
    }
    Ok(())
}

fn emit_fact_rows(
    sink: &mut Sink,
    names: &Names,
    vocab: &Vocabulary,
    rows: &Vec<ExportFact>,
    now: DateTime,
) -> (r: Result<(), Refused>)
    requires
        old(sink).wf(),
    ensures
        took(*old(sink), *final(sink), r, each(rows@.len(), fact_row_at(*names, *vocab, now, rows@))),
{
    let ghost f = fact_row_at(*names, *vocab, now, rows@);
    let mut i: usize = 0;
    while i < rows.len()
        invariant
            i <= rows@.len(),
            f == fact_row_at(*names, *vocab, now, rows@),
            sink.wf(),
            wrote(*old(sink), *sink, each(i as nat, f)),
        decreases rows@.len() - i,
    {
        proof {
            assert(each((i + 1) as nat, f) == each(i as nat, f) + f(i as int));
        }
        let r = emit_fact(sink, names, vocab, &rows[i], now);
        if r.is_err() {
            proof {
                lemma_each_stops((i + 1) as nat, rows@.len(), f);
            }
            return r;
        }
        i += 1;
    }
    Ok(())
}

fn emit_evidence_rows(
    sink: &mut Sink,
    names: &Names,
    rows: &Vec<ExportEvidence>,
) -> (r: Result<(), Refused>)
    requires
        old(sink).wf(),
    ensures
        took(*old(sink), *final(sink), r, each(rows@.len(), evidence_row_at(*names, rows@))),
{
    let ghost f = evidence_row_at(*names, rows@);
    let mut i: usize = 0;
    while i < rows.len()
        invariant
            i <= rows@.len(),
            f == evidence_row_at(*names, rows@),
            sink.wf(),
            wrote(*old(sink), *sink, each(i as nat, f)),
        decreases rows@.len() - i,
    {
        proof {
            assert(each((i + 1) as nat, f) == each(i as nat, f) + f(i as int));
        }
        let r = emit_evidence(sink, names, &rows[i]);
        if r.is_err() {
            proof {
                lemma_each_stops((i + 1) as nat, rows@.len(), f);
            }
            return r;
        }
        i += 1;
    }
    Ok(())
}

fn emit_derived_rows(
    sink: &mut Sink,
    names: &Names,
    vocab: &Vocabulary,
    rows: &Vec<ExportDerived>,
) -> (r: Result<(), Refused>)
    requires
        old(sink).wf(),
    ensures
        took(*old(sink), *final(sink), r, each(rows@.len(), derived_row_at(*names, *vocab, rows@))),
{
    let ghost f = derived_row_at(*names, *vocab, rows@);
    let mut i: usize = 0;
    while i < rows.len()
        invariant
            i <= rows@.len(),
            f == derived_row_at(*names, *vocab, rows@),
            sink.wf(),
            wrote(*old(sink), *sink, each(i as nat, f)),
        decreases rows@.len() - i,
    {
        proof {
            assert(each((i + 1) as nat, f) == each(i as nat, f) + f(i as int));
        }
        let r = emit_derived(sink, names, vocab, &rows[i]);
        if r.is_err() {
            proof {
                lemma_each_stops((i + 1) as nat, rows@.len(), f);
            }
            return r;
        }
        i += 1;
    }
    Ok(())
}

/// Writes a page of rows, up to the first that is refused.
pub fn export_page(
    sink: &mut Sink,
    names: &Names,
    vocab: &Vocabulary,
    page: &Page,
    now: DateTime,
) -> (r: Result<(), Refused>)
    requires
        old(sink).wf(),
    ensures
        took(*old(sink), *final(sink), r, page_steps(*names, *vocab, *page, now)),
{
    match page {
        Page::Classes(rows) => emit_class_rows(sink, vocab, rows),
        Page::Relations(rows) => emit_relation_rows(sink, vocab, rows),
        Page::Rules(rows) => emit_rule_rows(sink, names, vocab, rows),
        Page::AttributeRules(rows) => emit_attribute_rule_rows(sink, names, vocab, rows),
        Page::Documents(rows) => emit_document_rows(sink, names, rows),
        Page::DocumentVersions(rows) => emit_docversion_rows(sink, names, rows),
        Page::Chunks(rows) => emit_chunk_rows(sink, names, rows),
        Page::Entities(rows) => emit_entity_rows(sink, names, vocab, rows),
        Page::Facts(rows) => emit_fact_rows(sink, names, vocab, rows, now),
        Page::Evidence(rows) => emit_evidence_rows(sink, names, rows),
        Page::Derived(rows) => emit_derived_rows(sink, names, vocab, rows),
    }
}

/// The vocabulary of these classes and relations, if each of them has an IRI: one that it came
/// with, or one that its key makes under these names.
pub fn named_vocabulary(
    names: &Names,
    classes: &[ExportClass],
    relations: &[ExportRelation],
) -> (vocab: Option<Vocabulary>)
    ensures
        match vocab {
            Some(v) => all_named(*names, classes@, relations@) && vocabulary_of(
                v,
                *names,
                classes@,
                relations@,
            ),
            None => !all_named(*names, classes@, relations@),
        },
{
    let mut i: usize = 0;
    while i < classes.len()
        invariant
            i <= classes@.len(),
            forall|j: int| 0 <= j < i ==> iri_valid(#[trigger] names.class_iri(classes@[j])),
        decreases classes@.len() - i,
    {
        if !names.names_class(&classes[i]) {
            return None;
        }
        i += 1;
    }
    let mut i: usize = 0;
    while i < relations.len()
        invariant
            i <= relations@.len(),
            forall|j: int| 0 <= j < i ==> iri_valid(#[trigger] names.relation_iri(relations@[j])),
        decreases relations@.len() - i,
    {
        if !names.names_relation(&relations[i]) {
            return None;
        }
        i += 1;
    }
    Some(vocabulary(names, classes, relations))
}

} // verus!
