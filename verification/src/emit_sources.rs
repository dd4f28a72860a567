//! Entities, documents, their versions and passages, and evidence.
use crate::cells::{
    emit_instant, emit_integer, emit_link, emit_opt_class_ref, emit_opt_instant, emit_opt_integer,
    emit_opt_json, emit_opt_text, emit_text, emit_texts, inside, inside_if, inside_if_steps,
    inside_steps, opt_class_ref_steps, opt_instant_steps, opt_integer_steps, opt_json_steps,
    opt_text_steps, texts_steps,
};
use crate::literals::{instant_literal, integer_literal, text_literal, world_literal, world_time};
use crate::names::Names;
use crate::rows::{ExportChunk, ExportDocument, ExportDocumentVersion, ExportEntity, ExportEvidence};
use crate::sink::Sink;
use crate::steps::{group_steps, lit, nothing, only_if, res, took, wrote, Refused, Step};
use crate::term::{
    prov, prov_iri, rdf, rdf_iri, rdfs, rdfs_iri, schema, schema_iri, utopia, utopia_iri, NamedNode,
};
use crate::time::DateTime;
use crate::uuid::Uuid;
use crate::vocabulary::Vocabulary;
use crate::words::lemma_export_word;
use vstd::prelude::*;

verus! {

broadcast use {group_steps, lemma_export_word};

// ---- Entities ----

/// The steps for an entity. An entity without a type gets none; one whose type the vocabulary does
/// not know is a bad row.
pub open spec fn entity_steps(names: Names, vocab: Vocabulary, e: ExportEntity) -> Seq<Step> {
    let iri = names.entity_iri(e.id);
    lit(iri, rdfs_iri("label"@), text_literal(e.canonical_name@))
        + opt_class_ref_steps(vocab, iri, rdf_iri("type"@), e.type_id, "entity.type"@)
        + lit(iri, prov_iri("generatedAtTime"@), instant_literal(e.created_at))
        + lit(iri, utopia_iri("typeSource"@), text_literal(e.type_source@))
        + opt_instant_steps(iri, utopia_iri("typeResolvedAt"@), e.type_resolved_at)
        + opt_text_steps(iri, utopia_iri("proposedType"@), e.proposed_type)
        + opt_text_steps(iri, utopia_iri("specificType"@), e.specific_type)
        + opt_text_steps(iri, rdfs_iri("comment"@), e.description)
}

/// Writes an entity.
pub fn emit_entity(
    sink: &mut Sink,
    names: &Names,
    vocab: &Vocabulary,
    e: &ExportEntity,
) -> (r: Result<(), Refused>)
    requires
        old(sink).wf(),
    ensures
        took(*old(sink), *final(sink), r, entity_steps(*names, *vocab, *e)),
{
    let iri: NamedNode = names.entity(e.id);
    emit_text(sink, &iri, &rdfs("label"), e.canonical_name.as_str());
    emit_opt_class_ref(sink, vocab, &iri, &rdf("type"), e.type_id, "entity.type")?;
    emit_instant(sink, &iri, &prov("generatedAtTime"), e.created_at);
    emit_text(sink, &iri, &utopia("typeSource"), e.type_source.as_str());
    emit_opt_instant(sink, &iri, &utopia("typeResolvedAt"), e.type_resolved_at);
    emit_opt_text(sink, &iri, &utopia("proposedType"), &e.proposed_type);
    emit_opt_text(sink, &iri, &utopia("specificType"), &e.specific_type);
    emit_opt_text(sink, &iri, &rdfs("comment"), &e.description);
    Ok(())
}

// ---- Documents ----

/// The day on which a document was published, if it is known.
#[verifier::opaque]
pub open spec fn published_steps(iri: Seq<char>, at: Option<DateTime>) -> Seq<Step> {
    match at {
        Some(t) => lit(iri, schema_iri("datePublished"@), world_literal(t, Some("day"@))),
        None => nothing(),
    }
}

fn emit_published(sink: &mut Sink, iri: &NamedNode, at: Option<DateTime>)
    requires
        old(sink).wf(),
    ensures
        wrote(*old(sink), *final(sink), published_steps(iri@, at)),
{
    proof {
        reveal(published_steps);
    }
    if let Some(t) = at {
        sink.l(iri, &schema("datePublished"), &world_time(t, Some("day")));
    }
}

/// What a document is.
#[verifier::opaque]
pub open spec fn document_content_steps(iri: Seq<char>, d: ExportDocument) -> Seq<Step> {
    res(iri, rdf_iri("type"@), prov_iri("Entity"@))
        + lit(iri, rdfs_iri("label"@), text_literal(d.filename@))
        + lit(iri, utopia_iri("sha256"@), text_literal(d.sha256@))
        + lit(iri, schema_iri("encodingFormat"@), text_literal(d.mime@))
        + lit(iri, utopia_iri("sizeBytes"@), integer_literal(d.size_bytes as int))
        + lit(iri, utopia_iri("docTimeSource"@), text_literal(d.doc_time_source@))
        + texts_steps(iri, utopia_iri("tag"@), d.tags@)
        + opt_text_steps(iri, utopia_iri("externalKey"@), d.external_key)
}

/// When a document was published, recorded, deleted and purged, and what its dates refer to.
#[verifier::opaque]
pub open spec fn document_history_steps(iri: Seq<char>, d: ExportDocument) -> Seq<Step> {
    published_steps(iri, d.doc_time)
        + lit(iri, prov_iri("generatedAtTime"@), instant_literal(d.created_at))
        + opt_instant_steps(iri, prov_iri("invalidatedAtTime"@), d.deleted_at)
        + opt_instant_steps(iri, utopia_iri("purgedAt"@), d.purged_at)
        + opt_text_steps(iri, utopia_iri("readerNeeded"@), d.reader_needed)
        + opt_json_steps(iri, utopia_iri("timeContext"@), d.time_context)
        + opt_instant_steps(iri, utopia_iri("timeContextAt"@), d.time_context_at)
}

/// The steps for a document. A deleted one is written too: its facts still name it as their source.
pub open spec fn document_steps(names: Names, d: ExportDocument) -> Seq<Step> {
    let iri = names.document_iri(d.id);
    document_content_steps(iri, d) + document_history_steps(iri, d)
}

fn emit_document_content(sink: &mut Sink, iri: &NamedNode, d: &ExportDocument)
    requires
        old(sink).wf(),
    ensures
        wrote(*old(sink), *final(sink), document_content_steps(iri@, *d)),
{
    proof {
        reveal(document_content_steps);
    }
    emit_link(sink, iri, &rdf("type"), &prov("Entity"));
    emit_text(sink, iri, &rdfs("label"), d.filename.as_str());
    emit_text(sink, iri, &utopia("sha256"), d.sha256.as_str());
    emit_text(sink, iri, &schema("encodingFormat"), d.mime.as_str());
    emit_integer(sink, iri, &utopia("sizeBytes"), d.size_bytes);
    emit_text(sink, iri, &utopia("docTimeSource"), d.doc_time_source.as_str());
    emit_texts(sink, iri, &utopia("tag"), &d.tags);
    emit_opt_text(sink, iri, &utopia("externalKey"), &d.external_key);
}

fn emit_document_history(sink: &mut Sink, iri: &NamedNode, d: &ExportDocument)
    requires
        old(sink).wf(),
    ensures
        wrote(*old(sink), *final(sink), document_history_steps(iri@, *d)),
{
    proof {
        reveal(document_history_steps);
    }
    emit_published(sink, iri, d.doc_time);
    emit_instant(sink, iri, &prov("generatedAtTime"), d.created_at);
    emit_opt_instant(sink, iri, &prov("invalidatedAtTime"), d.deleted_at);
    emit_opt_instant(sink, iri, &utopia("purgedAt"), d.purged_at);
    emit_opt_text(sink, iri, &utopia("readerNeeded"), &d.reader_needed);
    emit_opt_json(sink, iri, &utopia("timeContext"), &d.time_context);
    emit_opt_instant(sink, iri, &utopia("timeContextAt"), d.time_context_at);
}

/// Writes a document. Nothing in it refers to another row, so it is never refused.
pub fn emit_document(sink: &mut Sink, names: &Names, d: &ExportDocument) -> (r: Result<(), Refused>)
    requires
        old(sink).wf(),
    ensures
        r is Ok,
        took(*old(sink), *final(sink), r, document_steps(*names, *d)),
{
    let iri: NamedNode = names.document(d.id);
    emit_document_content(sink, &iri, d);
    emit_document_history(sink, &iri, d);
    Ok(())
}

// ---- Passages ----

/// The version that a locator points at, if there is a row for it.
#[verifier::opaque]
pub open spec fn of_version_steps(
    names: Names,
    iri: Seq<char>,
    version_row: bool,
    document: Option<Uuid>,
    version: Option<i32>,
) -> Seq<Step> {
    match (document, version) {
        (Some(d), Some(v)) => only_if(
            version_row,
            res(iri, utopia_iri("ofVersion"@), names.docversion_iri(d, v)),
        ),
        _ => nothing(),
    }
}

fn emit_of_version(
    sink: &mut Sink,
    names: &Names,
    iri: &NamedNode,
    version_row: bool,
    document: Option<Uuid>,
    version: Option<i32>,
)
    requires
        old(sink).wf(),
    ensures
        wrote(
            *old(sink),
            *final(sink),
            of_version_steps(*names, iri@, version_row, document, version),
        ),
{
    proof {
        reveal(of_version_steps);
    }
    if version_row {
        if let (Some(d), Some(v)) = (document, version) {
            sink.r(iri, &utopia("ofVersion"), &names.docversion(d, v));
        }
    }
}

/// The steps for a passage. One that a newer version replaced is written too: its evidence still
/// points at it.
pub open spec fn chunk_steps(names: Names, c: ExportChunk) -> Seq<Step> {
    let iri = names.chunk_iri(c.id);
    inside_steps(names, c.document_kb, "chunk.document"@)
        + res(iri, rdf_iri("type"@), utopia_iri("Chunk"@))
        + res(iri, schema_iri("isPartOf"@), names.document_iri(c.document_id))
        + lit(iri, schema_iri("position"@), integer_literal(c.seq as int))
        + opt_text_steps(iri, utopia_iri("heading"@), c.heading)
        + lit(iri, utopia_iri("charStart"@), integer_literal(c.char_start as int))
        + lit(iri, utopia_iri("charEnd"@), integer_literal(c.char_end as int))
        + lit(iri, utopia_iri("docVersion"@), integer_literal(c.doc_version as int))
        + of_version_steps(names, iri, c.version_row, Some(c.document_id), Some(c.doc_version))
        + lit(iri, prov_iri("generatedAtTime"@), instant_literal(c.created_at))
        + lit(iri, utopia_iri("origin"@), text_literal(c.origin@))
        + opt_text_steps(iri, utopia_iri("originModel"@), c.origin_model)
        + opt_json_steps(iri, utopia_iri("anchor"@), c.anchor)
        + opt_instant_steps(iri, utopia_iri("extractedAt"@), c.extracted_at)
        + opt_instant_steps(iri, prov_iri("invalidatedAtTime"@), c.superseded_at)
}

/// Writes a passage: where it stands, not what it says.
pub fn emit_chunk(sink: &mut Sink, names: &Names, c: &ExportChunk) -> (r: Result<(), Refused>)
    requires
        old(sink).wf(),
    ensures
        took(*old(sink), *final(sink), r, chunk_steps(*names, *c)),
{
    inside(names, c.document_kb, "chunk.document")?;
    let iri: NamedNode = names.chunk(c.id);
    emit_link(sink, &iri, &rdf("type"), &utopia("Chunk"));
    emit_link(sink, &iri, &schema("isPartOf"), &names.document(c.document_id));
    emit_integer(sink, &iri, &schema("position"), c.seq as i64);
    emit_opt_text(sink, &iri, &utopia("heading"), &c.heading);
    emit_integer(sink, &iri, &utopia("charStart"), c.char_start as i64);
    emit_integer(sink, &iri, &utopia("charEnd"), c.char_end as i64);
    emit_integer(sink, &iri, &utopia("docVersion"), c.doc_version as i64);
    emit_of_version(sink, names, &iri, c.version_row, Some(c.document_id), Some(c.doc_version));
    emit_instant(sink, &iri, &prov("generatedAtTime"), c.created_at);
    emit_text(sink, &iri, &utopia("origin"), c.origin.as_str());
    emit_opt_text(sink, &iri, &utopia("originModel"), &c.origin_model);
    emit_opt_json(sink, &iri, &utopia("anchor"), &c.anchor);
    emit_opt_instant(sink, &iri, &utopia("extractedAt"), c.extracted_at);
    emit_opt_instant(sink, &iri, &prov("invalidatedAtTime"), c.superseded_at);
    Ok(())
}

// ---- Versions ----

/// The steps for a version of a document.
pub open spec fn docversion_steps(names: Names, v: ExportDocumentVersion) -> Seq<Step> {
    let node = names.docversion_iri(v.document_id, v.version);
    inside_steps(names, v.document_kb, "docversion.document"@)
        + res(node, rdf_iri("type"@), utopia_iri("DocumentVersion"@))
        + lit(node, utopia_iri("recordId"@), text_literal(v.id.text()))
        + res(node, prov_iri("wasRevisionOf"@), names.document_iri(v.document_id))
        + lit(node, utopia_iri("version"@), integer_literal(v.version as int))
        + lit(node, utopia_iri("sha256"@), text_literal(v.sha256@))
        + lit(node, utopia_iri("sizeBytes"@), integer_literal(v.size_bytes as int))
        + lit(node, prov_iri("generatedAtTime"@), instant_literal(v.ingested_at))
}

/// Writes a version of a document: which bytes it was.
pub fn emit_docversion(
    sink: &mut Sink,
    names: &Names,
    v: &ExportDocumentVersion,
) -> (r: Result<(), Refused>)
    requires
        old(sink).wf(),
    ensures
        took(*old(sink), *final(sink), r, docversion_steps(*names, *v)),
{
    inside(names, v.document_kb, "docversion.document")?;
    let node: NamedNode = names.docversion(v.document_id, v.version);
    emit_link(sink, &node, &rdf("type"), &utopia("DocumentVersion"));
    emit_text(sink, &node, &utopia("recordId"), v.id.to_string().as_str());
    emit_link(sink, &node, &prov("wasRevisionOf"), &names.document(v.document_id));
    emit_integer(sink, &node, &utopia("version"), v.version as i64);
    emit_text(sink, &node, &utopia("sha256"), v.sha256.as_str());
    emit_integer(sink, &node, &utopia("sizeBytes"), v.size_bytes);
    emit_instant(sink, &node, &prov("generatedAtTime"), v.ingested_at);
    Ok(())
}

// ---- Evidence ----

/// The document that a row names, if it names one.
#[verifier::opaque]
pub open spec fn opt_document_steps(
    names: Names,
    s: Seq<char>,
    p: Seq<char>,
    id: Option<Uuid>,
) -> Seq<Step> {
    match id {
        Some(d) => res(s, p, names.document_iri(d)),
        None => nothing(),
    }
}

fn emit_opt_document(sink: &mut Sink, names: &Names, s: &NamedNode, p: &NamedNode, id: Option<Uuid>)
    requires
        old(sink).wf(),
    ensures
        wrote(*old(sink), *final(sink), opt_document_steps(*names, s@, p@, id)),
{
    proof {
        reveal(opt_document_steps);
    }
    if let Some(d) = id {
        sink.r(s, p, &names.document(d));
    }
}

/// The steps for a piece of evidence.
pub open spec fn evidence_steps(names: Names, e: ExportEvidence) -> Seq<Step> {
    let iri = names.evidence_iri(e.fact_id, e.chunk_id);
    inside_steps(names, e.chunk_kb, "evidence.chunk"@)
        + inside_if_steps(names, e.document_id, e.document_kb, "evidence.document"@)
        + res(iri, rdf_iri("type"@), utopia_iri("Evidence"@))
        + res(iri, utopia_iri("onStatement"@), names.fact_iri(e.fact_id))
        + res(iri, utopia_iri("fromChunk"@), names.chunk_iri(e.chunk_id))
        + opt_text_steps(iri, utopia_iri("quote"@), e.quote)
        + opt_integer_steps(iri, utopia_iri("quoteStart"@), e.quote_start)
        + opt_integer_steps(iri, utopia_iri("quoteEnd"@), e.quote_end)
        + opt_document_steps(names, iri, prov_iri("wasDerivedFrom"@), e.document_id)
        + opt_integer_steps(iri, utopia_iri("docVersion"@), e.doc_version)
        + of_version_steps(names, iri, e.version_row, e.document_id, e.doc_version)
        + opt_text_steps(iri, utopia_iri("proposedPredicate"@), e.proposed_predicate)
}

/// Writes a piece of evidence: the pairing of a statement with the passage that supports it.
pub fn emit_evidence(sink: &mut Sink, names: &Names, e: &ExportEvidence) -> (r: Result<(), Refused>)
    requires
        old(sink).wf(),
    ensures
        took(*old(sink), *final(sink), r, evidence_steps(*names, *e)),
{
    inside(names, e.chunk_kb, "evidence.chunk")?;
    inside_if(names, e.document_id, e.document_kb, "evidence.document")?;
    let iri: NamedNode = names.evidence(e.fact_id, e.chunk_id);
    emit_link(sink, &iri, &rdf("type"), &utopia("Evidence"));
    emit_link(sink, &iri, &utopia("onStatement"), &names.fact(e.fact_id));
    emit_link(sink, &iri, &utopia("fromChunk"), &names.chunk(e.chunk_id));
    emit_opt_text(sink, &iri, &utopia("quote"), &e.quote);
    emit_opt_integer(sink, &iri, &utopia("quoteStart"), e.quote_start);
    emit_opt_integer(sink, &iri, &utopia("quoteEnd"), e.quote_end);
    emit_opt_document(sink, names, &iri, &prov("wasDerivedFrom"), e.document_id);
    emit_opt_integer(sink, &iri, &utopia("docVersion"), e.doc_version);
    emit_of_version(sink, names, &iri, e.version_row, e.document_id, e.doc_version);
    emit_opt_text(sink, &iri, &utopia("proposedPredicate"), &e.proposed_predicate);
    Ok(())
}

} // verus!
