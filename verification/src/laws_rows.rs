//! What rows of the ontology and of the sources say: exactly which triples are written of them, field
//! by field.
use crate::emit_ontology::{axiom_steps, class_steps, relation_steps, rule_steps};
use crate::emit_sources::{
    chunk_steps, document_content_steps, document_history_steps, document_steps, docversion_steps,
    entity_steps, evidence_steps, of_version_steps, opt_document_steps, published_steps,
};
use crate::json::json_compact;
use crate::laws_among::{group_among_cells, lemma_written};
use crate::laws_terms::terms_are_told_apart;
use crate::literals::{flag_literal, instant_literal, integer_literal, text_literal, world_literal};
use crate::names::Names;
use crate::rows::{
    ExportChunk, ExportClass, ExportDocument, ExportDocumentVersion, ExportEntity, ExportEvidence,
    ExportRelation, ExportRule,
};
use crate::steps::{emitted, refusal};
use crate::term::{
    link, owl_iri, prov_iri, rdf_iri, rdfs_iri, says, schema_iri, utopia_iri, TripleView,
};
use crate::vocabulary::Vocabulary;
use vstd::prelude::*;
use vstd::string::*;

verus! {

// ---- Ontology ----

/// Of a class that the vocabulary knows exactly this is written: what it is, is called and is
/// described by, whether the system declared it, when it changed, and every parent, primary parent
/// and disjoint class. Of one that it does not know, nothing is.
pub proof fn class_says(vocab: Vocabulary, c: ExportClass, t: TripleView)
    ensures
        vocab.class_iri(c.id) is None ==> !emitted(class_steps(vocab, c)).contains(t),
        vocab.class_iri(c.id) matches Some(iri) ==> ({
            let written = emitted(class_steps(vocab, c));
            let said = {
                ||| t == link(iri, rdf_iri("type"@), owl_iri("Class"@))
                ||| t == says(iri, rdfs_iri("label"@), text_literal(c.label@))
                ||| c.description@.len() > 0 && t == says(
                    iri,
                    rdfs_iri("comment"@),
                    text_literal(c.description@),
                )
                ||| c.builtin && t == says(iri, utopia_iri("builtin"@), flag_literal(true))
                ||| t == says(iri, utopia_iri("updatedAt"@), instant_literal(c.updated_at))
                ||| exists|i: int|
                    0 <= i < c.parents@.len() && vocab.class_iri(#[trigger] c.parents@[i]) is Some && t
                        == link(iri, rdfs_iri("subClassOf"@), vocab.class_iri(c.parents@[i])->0)
                ||| exists|i: int|
                    0 <= i < c.primary_parents@.len() && vocab.class_iri(
                        #[trigger] c.primary_parents@[i],
                    ) is Some && t == link(
                        iri,
                        utopia_iri("primaryType"@),
                        vocab.class_iri(c.primary_parents@[i])->0,
                    )
                ||| exists|i: int|
                    0 <= i < c.disjoint@.len() && vocab.class_iri(#[trigger] c.disjoint@[i]) is Some
                        && t == link(
                        iri,
                        owl_iri("disjointWith"@),
                        vocab.class_iri(c.disjoint@[i])->0,
                    )
            };
            &&& written.contains(t) ==> said
            &&& said && refusal(class_steps(vocab, c)) is None ==> written.contains(t)
        }),
{
    broadcast use group_among_cells;

    lemma_written(class_steps(vocab, c), t);
}

/// Of a relation that the vocabulary knows exactly this is written: whether its values are literals
/// or resources, what it is called and is described by, each axiom that it has under the class of OWL
/// for that axiom, its kind of time unless it is a state, whether the system declared it, every
/// relation and class that it refers to, the datatype and unit of its values, and when it changed. Of
/// one that the vocabulary does not know, nothing is.
pub proof fn relation_says(vocab: Vocabulary, r: ExportRelation, t: TripleView)
    ensures
        vocab.relation_iri(r.id) is None ==> !emitted(relation_steps(vocab, r)).contains(t),
        vocab.relation_iri(r.id) matches Some(iri) ==> ({
            let written = emitted(relation_steps(vocab, r));
            let said = {
                ||| r.kind@ == "attribute"@ && t == link(
                    iri,
                    rdf_iri("type"@),
                    owl_iri("DatatypeProperty"@),
                )
                ||| r.kind@ != "attribute"@ && t == link(
                    iri,
                    rdf_iri("type"@),
                    owl_iri("ObjectProperty"@),
                )
                ||| t == says(iri, rdfs_iri("label"@), text_literal(r.label@))
                ||| r.description@.len() > 0 && t == says(
                    iri,
                    rdfs_iri("comment"@),
                    text_literal(r.description@),
                )
                ||| r.functional && t == link(
                    iri,
                    rdf_iri("type"@),
                    owl_iri("FunctionalProperty"@),
                )
                ||| r.inverse_functional && t == link(
                    iri,
                    rdf_iri("type"@),
                    owl_iri("InverseFunctionalProperty"@),
                )
                ||| r.is_transitive && t == link(
                    iri,
                    rdf_iri("type"@),
                    owl_iri("TransitiveProperty"@),
                )
                ||| r.is_symmetric && t == link(
                    iri,
                    rdf_iri("type"@),
                    owl_iri("SymmetricProperty"@),
                )
                ||| r.is_asymmetric && t == link(
                    iri,
                    rdf_iri("type"@),
                    owl_iri("AsymmetricProperty"@),
                )
                ||| r.is_irreflexive && t == link(
                    iri,
                    rdf_iri("type"@),
                    owl_iri("IrreflexiveProperty"@),
                )
                ||| r.temporal@ != "state"@ && t == says(
                    iri,
                    utopia_iri("temporal"@),
                    text_literal(r.temporal@),
                )
                ||| r.builtin && t == says(iri, utopia_iri("builtin"@), flag_literal(true))
                ||| r.inverse_of is Some && vocab.relation_iri(r.inverse_of->0) is Some && t == link(
                    iri,
                    owl_iri("inverseOf"@),
                    vocab.relation_iri(r.inverse_of->0)->0,
                )
                ||| r.sub_property_of is Some && vocab.relation_iri(r.sub_property_of->0) is Some && t
                    == link(
                    iri,
                    rdfs_iri("subPropertyOf"@),
                    vocab.relation_iri(r.sub_property_of->0)->0,
                )
                ||| exists|i: int|
                    0 <= i < r.qualifiers@.len() && vocab.relation_iri(
                        #[trigger] r.qualifiers@[i],
                    ) is Some && t == link(
                        iri,
                        utopia_iri("allowedQualifier"@),
                        vocab.relation_iri(r.qualifiers@[i])->0,
                    )
                ||| exists|i: int|
                    0 <= i < r.domains@.len() && vocab.class_iri(#[trigger] r.domains@[i]) is Some && t
                        == link(iri, rdfs_iri("domain"@), vocab.class_iri(r.domains@[i])->0)
                ||| exists|i: int|
                    0 <= i < r.ranges@.len() && vocab.class_iri(#[trigger] r.ranges@[i]) is Some && t
                        == link(iri, rdfs_iri("range"@), vocab.class_iri(r.ranges@[i])->0)
                ||| r.datatype is Some && t == says(
                    iri,
                    utopia_iri("datatype"@),
                    text_literal(r.datatype->0@),
                )
                ||| r.unit is Some && t == says(iri, utopia_iri("unit"@), text_literal(r.unit->0@))
                ||| t == says(iri, utopia_iri("updatedAt"@), instant_literal(r.updated_at))
            };
            &&& written.contains(t) ==> said
            &&& said && refusal(relation_steps(vocab, r)) is None ==> written.contains(t)
        }),
{
    broadcast use group_among_cells;

    reveal(axiom_steps);
    lemma_written(relation_steps(vocab, r), t);
}

/// A relation that is written has the type of OWL for each axiom exactly if it has the axiom:
/// symmetry is never written as its opposite, and no axiom is left out or made up.
pub proof fn axioms_are_written_as_they_are(vocab: Vocabulary, r: ExportRelation, iri: Seq<char>)
    requires
        vocab.relation_iri(r.id) == Some(iri),
        refusal(relation_steps(vocab, r)) is None,
    ensures
        ({
            let written = emitted(relation_steps(vocab, r));
            let a = rdf_iri("type"@);
            &&& written.contains(link(iri, a, owl_iri("FunctionalProperty"@))) <==> r.functional
            &&& written.contains(link(iri, a, owl_iri("InverseFunctionalProperty"@)))
                <==> r.inverse_functional
            &&& written.contains(link(iri, a, owl_iri("TransitiveProperty"@))) <==> r.is_transitive
            &&& written.contains(link(iri, a, owl_iri("SymmetricProperty"@))) <==> r.is_symmetric
            &&& written.contains(link(iri, a, owl_iri("AsymmetricProperty"@))) <==> r.is_asymmetric
            &&& written.contains(link(iri, a, owl_iri("IrreflexiveProperty"@))) <==> r.is_irreflexive
            &&& written.contains(link(iri, a, owl_iri("DatatypeProperty"@))) <==> r.kind@
                == "attribute"@
            &&& written.contains(link(iri, a, owl_iri("ObjectProperty"@))) <==> r.kind@
                != "attribute"@
        }),
{
    let a = rdf_iri("type"@);
    lemma_axioms_apart();
    relation_says(vocab, r, link(iri, a, owl_iri("FunctionalProperty"@)));
    relation_says(vocab, r, link(iri, a, owl_iri("InverseFunctionalProperty"@)));
    relation_says(vocab, r, link(iri, a, owl_iri("TransitiveProperty"@)));
    relation_says(vocab, r, link(iri, a, owl_iri("SymmetricProperty"@)));
    relation_says(vocab, r, link(iri, a, owl_iri("AsymmetricProperty"@)));
    relation_says(vocab, r, link(iri, a, owl_iri("IrreflexiveProperty"@)));
    relation_says(vocab, r, link(iri, a, owl_iri("DatatypeProperty"@)));
    relation_says(vocab, r, link(iri, a, owl_iri("ObjectProperty"@)));
    terms_are_told_apart();
}

proof fn lemma_axioms_apart()
    ensures
        "FunctionalProperty"@.len() == 18,
        "InverseFunctionalProperty"@.len() == 25,
        "TransitiveProperty"@.len() == 18 && "TransitiveProperty"@[0] == 'T',
        "FunctionalProperty"@[0] == 'F',
        "SymmetricProperty"@.len() == 17,
        "AsymmetricProperty"@.len() == 18 && "AsymmetricProperty"@[0] == 'A',
        "IrreflexiveProperty"@.len() == 19,
        "DatatypeProperty"@.len() == 16,
        "ObjectProperty"@.len() == 14,
{
    reveal_strlit("FunctionalProperty");
    reveal_strlit("InverseFunctionalProperty");
    reveal_strlit("TransitiveProperty");
    reveal_strlit("SymmetricProperty");
    reveal_strlit("AsymmetricProperty");
    reveal_strlit("IrreflexiveProperty");
    reveal_strlit("DatatypeProperty");
    reveal_strlit("ObjectProperty");
}

/// Of an axiom exactly this is written: that it is an activity, its kind, and the relation that it is
/// about.
pub proof fn rule_says(names: Names, vocab: Vocabulary, r: ExportRule, t: TripleView)
    ensures
        ({
            let iri = names.rule_iri(r.id);
            let written = emitted(rule_steps(names, vocab, r));
            let said = {
                ||| t == link(iri, rdf_iri("type"@), prov_iri("Activity"@))
                ||| t == says(iri, rdfs_iri("label"@), text_literal(r.kind@))
                ||| t == says(iri, utopia_iri("ruleKind"@), text_literal(r.kind@))
                ||| vocab.relation_iri(r.predicate_id) is Some && t == link(
                    iri,
                    utopia_iri("onPredicate"@),
                    vocab.relation_iri(r.predicate_id)->0,
                )
            };
            &&& written.contains(t) ==> said
            &&& said && refusal(rule_steps(names, vocab, r)) is None ==> written.contains(t)
        }),
{
    broadcast use group_among_cells;

    lemma_written(rule_steps(names, vocab, r), t);
}

// ---- Sources ----

/// Of an entity exactly this is written: its name, its class, when it was recorded, who decided on
/// the class and when, the words for a class that were heard, and its description.
pub proof fn entity_says(names: Names, vocab: Vocabulary, e: ExportEntity, t: TripleView)
    ensures
        ({
            let iri = names.entity_iri(e.id);
            let written = emitted(entity_steps(names, vocab, e));
            let said = {
                ||| t == says(iri, rdfs_iri("label"@), text_literal(e.canonical_name@))
                ||| e.type_id is Some && vocab.class_iri(e.type_id->0) is Some && t == link(
                    iri,
                    rdf_iri("type"@),
                    vocab.class_iri(e.type_id->0)->0,
                )
                ||| t == says(iri, prov_iri("generatedAtTime"@), instant_literal(e.created_at))
                ||| t == says(iri, utopia_iri("typeSource"@), text_literal(e.type_source@))
                ||| e.type_resolved_at is Some && t == says(
                    iri,
                    utopia_iri("typeResolvedAt"@),
                    instant_literal(e.type_resolved_at->0),
                )
                ||| e.proposed_type is Some && t == says(
                    iri,
                    utopia_iri("proposedType"@),
                    text_literal(e.proposed_type->0@),
                )
                ||| e.specific_type is Some && t == says(
                    iri,
                    utopia_iri("specificType"@),
                    text_literal(e.specific_type->0@),
                )
                ||| e.description is Some && t == says(
                    iri,
                    rdfs_iri("comment"@),
                    text_literal(e.description->0@),
                )
            };
            &&& written.contains(t) ==> said
            &&& said && refusal(entity_steps(names, vocab, e)) is None ==> written.contains(t)
        }),
{
    broadcast use group_among_cells;

    lemma_written(entity_steps(names, vocab, e), t);
}

/// Of a document exactly this is written, whether it was deleted or not.
pub proof fn document_says(names: Names, d: ExportDocument, t: TripleView)
    ensures
        ({
            let iri = names.document_iri(d.id);
            let written = emitted(document_steps(names, d));
            let said = {
                ||| t == link(iri, rdf_iri("type"@), prov_iri("Entity"@))
                ||| t == says(iri, rdfs_iri("label"@), text_literal(d.filename@))
                ||| t == says(iri, utopia_iri("sha256"@), text_literal(d.sha256@))
                ||| t == says(iri, schema_iri("encodingFormat"@), text_literal(d.mime@))
                ||| t == says(iri, utopia_iri("sizeBytes"@), integer_literal(d.size_bytes as int))
                ||| t == says(iri, utopia_iri("docTimeSource"@), text_literal(d.doc_time_source@))
                ||| exists|i: int|
                    0 <= i < d.tags@.len() && t == says(
                        iri,
                        utopia_iri("tag"@),
                        text_literal((#[trigger] d.tags@[i])@),
                    )
                ||| d.external_key is Some && t == says(
                    iri,
                    utopia_iri("externalKey"@),
                    text_literal(d.external_key->0@),
                )
                ||| d.doc_time is Some && t == says(
                    iri,
                    schema_iri("datePublished"@),
                    world_literal(d.doc_time->0, Some("day"@)),
                )
                ||| t == says(iri, prov_iri("generatedAtTime"@), instant_literal(d.created_at))
                ||| d.deleted_at is Some && t == says(
                    iri,
                    prov_iri("invalidatedAtTime"@),
                    instant_literal(d.deleted_at->0),
                )
                ||| d.purged_at is Some && t == says(
                    iri,
                    utopia_iri("purgedAt"@),
                    instant_literal(d.purged_at->0),
                )
                ||| d.reader_needed is Some && t == says(
                    iri,
                    utopia_iri("readerNeeded"@),
                    text_literal(d.reader_needed->0@),
                )
                ||| d.time_context is Some && t == says(
                    iri,
                    utopia_iri("timeContext"@),
                    text_literal(json_compact(d.time_context->0@)),
                )
                ||| d.time_context_at is Some && t == says(
                    iri,
                    utopia_iri("timeContextAt"@),
                    instant_literal(d.time_context_at->0),
                )
            };
            &&& written.contains(t) ==> said
            &&& said && refusal(document_steps(names, d)) is None ==> written.contains(t)
        }),
{
    broadcast use group_among_cells;

    reveal(document_content_steps);
    reveal(document_history_steps);
    reveal(published_steps);
    lemma_written(document_steps(names, d), t);
}

/// Of a passage exactly this is written: where it stands in which version of which document, who
/// wrote it down and when, and when it was replaced.
pub proof fn chunk_says(names: Names, c: ExportChunk, t: TripleView)
    ensures
        ({
            let iri = names.chunk_iri(c.id);
            let written = emitted(chunk_steps(names, c));
            let said = {
                ||| t == link(iri, rdf_iri("type"@), utopia_iri("Chunk"@))
                ||| t == link(iri, schema_iri("isPartOf"@), names.document_iri(c.document_id))
                ||| t == says(iri, schema_iri("position"@), integer_literal(c.seq as int))
                ||| c.heading is Some && t == says(
                    iri,
                    utopia_iri("heading"@),
                    text_literal(c.heading->0@),
                )
                ||| t == says(iri, utopia_iri("charStart"@), integer_literal(c.char_start as int))
                ||| t == says(iri, utopia_iri("charEnd"@), integer_literal(c.char_end as int))
                ||| t == says(iri, utopia_iri("docVersion"@), integer_literal(c.doc_version as int))
                ||| c.version_row && t == link(
                    iri,
                    utopia_iri("ofVersion"@),
                    names.docversion_iri(c.document_id, c.doc_version),
                )
                ||| t == says(iri, prov_iri("generatedAtTime"@), instant_literal(c.created_at))
                ||| t == says(iri, utopia_iri("origin"@), text_literal(c.origin@))
                ||| c.origin_model is Some && t == says(
                    iri,
                    utopia_iri("originModel"@),
                    text_literal(c.origin_model->0@),
                )
                ||| c.anchor is Some && t == says(
                    iri,
                    utopia_iri("anchor"@),
                    text_literal(json_compact(c.anchor->0@)),
                )
                ||| c.extracted_at is Some && t == says(
                    iri,
                    utopia_iri("extractedAt"@),
                    instant_literal(c.extracted_at->0),
                )
                ||| c.superseded_at is Some && t == says(
                    iri,
                    prov_iri("invalidatedAtTime"@),
                    instant_literal(c.superseded_at->0),
                )
            };
            &&& written.contains(t) ==> said
            &&& said && refusal(chunk_steps(names, c)) is None ==> written.contains(t)
        }),
{
    broadcast use group_among_cells;

    reveal(of_version_steps);
    lemma_written(chunk_steps(names, c), t);
}

/// Of a version of a document exactly this is written: which document it is a version of, its
/// number, and which bytes it was.
pub proof fn docversion_says(names: Names, v: ExportDocumentVersion, t: TripleView)
    ensures
        ({
            let node = names.docversion_iri(v.document_id, v.version);
            let written = emitted(docversion_steps(names, v));
            let said = {
                ||| t == link(node, rdf_iri("type"@), utopia_iri("DocumentVersion"@))
                ||| t == says(node, utopia_iri("recordId"@), text_literal(v.id.text()))
                ||| t == link(node, prov_iri("wasRevisionOf"@), names.document_iri(v.document_id))
                ||| t == says(node, utopia_iri("version"@), integer_literal(v.version as int))
                ||| t == says(node, utopia_iri("sha256"@), text_literal(v.sha256@))
                ||| t == says(node, utopia_iri("sizeBytes"@), integer_literal(v.size_bytes as int))
                ||| t == says(node, prov_iri("generatedAtTime"@), instant_literal(v.ingested_at))
            };
            &&& written.contains(t) ==> said
            &&& said && refusal(docversion_steps(names, v)) is None ==> written.contains(t)
        }),
{
    broadcast use group_among_cells;

    lemma_written(docversion_steps(names, v), t);
}

/// Of a piece of evidence exactly this is written: the statement and the passage that it pairs, the
/// words that were quoted and where they stand, the document and its version, and the words that were
/// heard for a relation.
pub proof fn evidence_says(names: Names, e: ExportEvidence, t: TripleView)
    ensures
        ({
            let iri = names.evidence_iri(e.fact_id, e.chunk_id);
            let written = emitted(evidence_steps(names, e));
            let said = {
                ||| t == link(iri, rdf_iri("type"@), utopia_iri("Evidence"@))
                ||| t == link(iri, utopia_iri("onStatement"@), names.fact_iri(e.fact_id))
                ||| t == link(iri, utopia_iri("fromChunk"@), names.chunk_iri(e.chunk_id))
                ||| e.quote is Some && t == says(iri, utopia_iri("quote"@), text_literal(e.quote->0@))
                ||| e.quote_start is Some && t == says(
                    iri,
                    utopia_iri("quoteStart"@),
                    integer_literal(e.quote_start->0 as int),
                )
                ||| e.quote_end is Some && t == says(
                    iri,
                    utopia_iri("quoteEnd"@),
                    integer_literal(e.quote_end->0 as int),
                )
                ||| e.document_id is Some && t == link(
                    iri,
                    prov_iri("wasDerivedFrom"@),
                    names.document_iri(e.document_id->0),
                )
                ||| e.doc_version is Some && t == says(
                    iri,
                    utopia_iri("docVersion"@),
                    integer_literal(e.doc_version->0 as int),
                )
                ||| e.version_row && e.document_id is Some && e.doc_version is Some && t == link(
                    iri,
                    utopia_iri("ofVersion"@),
                    names.docversion_iri(e.document_id->0, e.doc_version->0),
                )
                ||| e.proposed_predicate is Some && t == says(
                    iri,
                    utopia_iri("proposedPredicate"@),
                    text_literal(e.proposed_predicate->0@),
                )
            };
            &&& written.contains(t) ==> said
            &&& said && refusal(evidence_steps(names, e)) is None ==> written.contains(t)
        }),
{
    broadcast use group_among_cells;

    reveal(of_version_steps);
    reveal(opt_document_steps);
    lemma_written(evidence_steps(names, e), t);
}

} // verus!
