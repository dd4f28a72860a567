//! The rows of a ledger that an export reads, each with the knowledge bases of the rows it refers
//! to, selected together with the row itself.
use crate::json::Json;
use crate::time::DateTime;
use crate::uuid::Uuid;
use vstd::prelude::*;

verus! {

/// A class of the ontology.
#[derive(Debug, Clone)]
pub struct ExportClass {
    pub id: Uuid,
    pub key: String,
    pub label: String,
    pub description: String,
    /// An imported class keeps the IRI it came with.
    pub iri: Option<String>,
    /// Declared by the system, not grown in this knowledge base.
    pub builtin: bool,
    pub parents: Vec<Uuid>,
    pub primary_parents: Vec<Uuid>,
    pub disjoint: Vec<Uuid>,
    pub updated_at: DateTime,
}

/// A relation or attribute of the ontology.
#[derive(Debug, Clone)]
pub struct ExportRelation {
    pub id: Uuid,
    pub key: String,
    pub label: String,
    pub description: String,
    pub iri: Option<String>,
    /// `relation` or `attribute`; the values of an attribute are literals.
    pub kind: String,
    /// The declared type of an attribute's values.
    pub datatype: Option<String>,
    pub unit: Option<String>,
    pub temporal: String,
    pub functional: bool,
    pub inverse_functional: bool,
    pub is_transitive: bool,
    pub is_symmetric: bool,
    pub is_asymmetric: bool,
    pub is_irreflexive: bool,
    pub builtin: bool,
    pub inverse_of: Option<Uuid>,
    pub sub_property_of: Option<Uuid>,
    /// The attributes that an edge of this relation may carry.
    pub qualifiers: Vec<Uuid>,
    pub domains: Vec<Uuid>,
    pub ranges: Vec<Uuid>,
    pub updated_at: DateTime,
}

/// An axiom that derives facts.
#[derive(Debug, Clone)]
pub struct ExportRule {
    pub id: Uuid,
    /// `transitive`, `symmetric`, `inverse` or `sub_property`.
    pub kind: String,
    pub predicate_id: Uuid,
    pub predicate_kb: Option<Uuid>,
}

/// A business rule.
#[derive(Debug, Clone)]
pub struct ExportAttributeRule {
    pub id: Uuid,
    pub name: String,
    pub description: String,
    /// `typing`, `attribute` or `computed`.
    pub conclusion: String,
    pub subject_type_id: Uuid,
    pub conclude_type_id: Option<Uuid>,
    pub conclude_predicate_id: Option<Uuid>,
    pub conclude_value: Option<Json>,
    /// The formula of a computed conclusion; its `attr` leaves refer to relations.
    pub conclude_expr: Option<Json>,
    pub enabled: bool,
    /// The premises, ordered by group and position: within a group all must hold, and one group
    /// is enough.
    pub conditions: Vec<ExportRuleCondition>,
    pub subject_type_kb: Option<Uuid>,
    pub conclude_type_kb: Option<Uuid>,
    pub conclude_predicate_kb: Option<Uuid>,
}

/// A premise of a business rule.
#[derive(Debug, Clone)]
pub struct ExportRuleCondition {
    pub id: Uuid,
    pub rule_id: Uuid,
    pub group_seq: i32,
    pub seq: i32,
    pub predicate_id: Uuid,
    /// `gt`, `gte`, `lt`, `lte`, `between`, `in`, `not_in` or `present`.
    pub op: String,
    /// The threshold; it may be a formula whose `attr` leaves refer to relations.
    pub operand: Option<Json>,
    pub predicate_kb: Option<Uuid>,
}

/// An entity that was not merged into another.
#[derive(Debug, Clone)]
pub struct ExportEntity {
    pub id: Uuid,
    pub canonical_name: String,
    pub type_id: Option<Uuid>,
    pub type_kb: Option<Uuid>,
    /// Who decided on the type: `extracted`, `inferred` or `human`.
    pub type_source: String,
    pub type_resolved_at: Option<DateTime>,
    /// The word that the ontology could not take.
    pub proposed_type: Option<String>,
    pub specific_type: Option<String>,
    /// What is said of a thing that has no name.
    pub description: Option<String>,
    pub created_at: DateTime,
}

/// A property of an edge.
#[derive(Debug, Clone)]
pub struct FactQualifier {
    pub qualifier_type_id: Uuid,
    pub key: String,
    pub label: String,
    pub value: Option<Json>,
    pub entity_id: Option<Uuid>,
    pub entity_name: Option<String>,
}

/// An asserted fact or an open statement.
#[derive(Debug, Clone)]
pub struct ExportFact {
    pub id: Uuid,
    pub subject_id: Uuid,
    pub predicate_id: Option<Uuid>,
    /// The words of the model where the ontology has no relation for them.
    pub surface_predicate: Option<String>,
    pub object_id: Option<Uuid>,
    pub object_value: Option<Json>,
    pub qualifiers: Vec<FactQualifier>,
    /// `typed` or `open`.
    pub layer: String,
    /// The document's own word for an open statement.
    pub phrase: Option<String>,
    /// The statements that a typed fact was computed from.
    pub source_statements: Vec<Uuid>,
    /// One of `source_statements` belongs to another knowledge base, or to none.
    pub foreign_source: bool,
    pub statement_qualifiers: Vec<ExportStatementQualifier>,
    pub time_mentions: Vec<ExportTimeMention>,
    pub valid_from: Option<DateTime>,
    pub valid_from_precision: Option<String>,
    /// `A` stated, `B` computed from the document's anchor, `C` not computed.
    pub valid_from_grade: Option<String>,
    pub valid_to: Option<DateTime>,
    pub valid_to_precision: Option<String>,
    /// The interval in which the fact holds, as read from the ledger.
    pub holds_from: Option<DateTime>,
    pub holds_to: Option<DateTime>,
    pub attested_from: DateTime,
    pub attested_to: Option<DateTime>,
    /// The end was drawn by the engine and may move.
    pub end_derived: bool,
    /// The mark of an earlier way to derive facts.
    pub rule_derived: bool,
    pub recorded_at: DateTime,
    pub invalidated_at: Option<DateTime>,
    /// The confidence as a decimal with two digits behind the point.
    pub confidence: String,
    pub supersedes: Option<Uuid>,
    pub documents: Vec<Uuid>,
    pub quotes: Vec<String>,
    pub quote_origins: Vec<String>,
    pub subject_kb: Option<Uuid>,
    pub object_kb: Option<Uuid>,
    pub predicate_kb: Option<Uuid>,
    pub supersedes_kb: Option<Uuid>,
    /// One of `documents` belongs to another knowledge base, or to none.
    pub foreign_document: bool,
    /// The subject was merged into another entity and is not exported.
    pub subject_merged: bool,
    pub object_merged: bool,
}

/// A property of an open statement: the document's own word for a role, and a value or an entity.
#[derive(Debug, Clone)]
pub struct ExportStatementQualifier {
    pub fact_id: Uuid,
    pub role: String,
    pub value: Option<Json>,
    pub entity_id: Option<Uuid>,
    pub entity_kb: Option<Uuid>,
    pub entity_merged: bool,
}

/// The words of a statement that say when, and what they resolve to.
#[derive(Debug, Clone)]
pub struct ExportTimeMention {
    pub id: Uuid,
    pub kb_id: Uuid,
    pub fact_id: Uuid,
    pub chunk_id: Uuid,
    /// `when` or `ended`.
    pub role: String,
    pub text: String,
    pub char_start: i32,
    pub shape: Option<String>,
    pub reference: Option<Json>,
    pub granularity: Option<String>,
    pub grade: Option<String>,
    pub resolved_from: Option<DateTime>,
    pub resolved_from_precision: Option<String>,
    pub resolved_to: Option<DateTime>,
    pub resolved_to_precision: Option<String>,
    pub resolved_at: Option<DateTime>,
    pub recorded_at: DateTime,
    pub chunk_kb: Option<Uuid>,
}

/// A fact that a rule derived.
#[derive(Debug, Clone)]
pub struct ExportDerived {
    pub id: Uuid,
    pub subject_id: Uuid,
    pub predicate_id: Uuid,
    pub object_id: Option<Uuid>,
    pub object_value: Option<Json>,
    /// The axiom; a business rule stands in `attribute_rule_id`.
    pub rule_id: Option<Uuid>,
    pub attribute_rule_id: Option<Uuid>,
    pub valid_from: Option<DateTime>,
    pub valid_from_precision: Option<String>,
    pub valid_to: Option<DateTime>,
    pub valid_to_precision: Option<String>,
    pub derived_at: DateTime,
    pub invalidated_at: Option<DateTime>,
    /// The confidence as a decimal with two digits behind the point.
    pub confidence: String,
    /// The premises in the order of the proof.
    pub premises: Vec<ExportPremise>,
    pub subject_kb: Option<Uuid>,
    pub object_kb: Option<Uuid>,
    pub predicate_kb: Option<Uuid>,
    pub rule_kb: Option<Uuid>,
    pub attribute_rule_kb: Option<Uuid>,
    /// A premise among the asserted facts belongs to another knowledge base, or to none.
    pub foreign_fact_premise: bool,
    pub foreign_derived_premise: bool,
    pub subject_merged: bool,
    pub object_merged: bool,
}

/// A premise: an asserted or a derived fact, and its place in the proof.
#[derive(Debug, Clone)]
pub struct ExportPremise {
    pub seq: i32,
    pub fact_id: Option<Uuid>,
    pub derived_id: Option<Uuid>,
}

/// A document.
#[derive(Debug, Clone)]
pub struct ExportDocument {
    pub id: Uuid,
    pub filename: String,
    pub external_key: Option<String>,
    pub sha256: String,
    pub mime: String,
    pub size_bytes: i64,
    /// Where `doc_time` comes from.
    pub doc_time_source: String,
    pub tags: Vec<String>,
    pub doc_time: Option<DateTime>,
    pub created_at: DateTime,
    pub deleted_at: Option<DateTime>,
    /// The content is gone, the record is kept.
    pub purged_at: Option<DateTime>,
    pub reader_needed: Option<String>,
    /// The periods, calendar and anchor that the document itself defines.
    pub time_context: Option<Json>,
    pub time_context_at: Option<DateTime>,
}

/// A passage of a document: where it stands, without its text.
#[derive(Debug, Clone)]
pub struct ExportChunk {
    pub id: Uuid,
    pub document_id: Uuid,
    pub seq: i32,
    pub heading: Option<String>,
    pub char_start: i32,
    pub char_end: i32,
    pub doc_version: i32,
    /// There is a version row for `document_id` and `doc_version`.
    pub version_row: bool,
    pub superseded_at: Option<DateTime>,
    pub extracted_at: Option<DateTime>,
    /// Who wrote the passage down: `stated`, `pasted`, `ocr` and so on.
    pub origin: String,
    pub origin_model: Option<String>,
    pub anchor: Option<Json>,
    pub created_at: DateTime,
    pub document_kb: Option<Uuid>,
}

/// The pairing of a statement with a passage that supports it.
#[derive(Debug, Clone)]
pub struct ExportEvidence {
    pub fact_id: Uuid,
    pub chunk_id: Uuid,
    pub document_id: Option<Uuid>,
    pub doc_version: Option<i32>,
    /// There is a version row for `document_id` and `doc_version`.
    pub version_row: bool,
    pub quote: Option<String>,
    pub quote_start: Option<i32>,
    pub quote_end: Option<i32>,
    pub proposed_predicate: Option<String>,
    pub chunk_kb: Option<Uuid>,
    pub document_kb: Option<Uuid>,
}

/// A version of a document.
#[derive(Debug, Clone)]
pub struct ExportDocumentVersion {
    pub id: Uuid,
    pub document_id: Uuid,
    pub version: i32,
    pub sha256: String,
    pub size_bytes: i64,
    pub ingested_at: DateTime,
    pub document_kb: Option<Uuid>,
}

} // verus!
