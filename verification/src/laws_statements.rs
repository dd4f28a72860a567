//! What statements say: exactly which triples are written of facts and derived facts, field by
//! field.
use crate::emit_derived::{
    derived_barrier_steps, derived_object_steps, derived_steps, premise_at, premise_steps,
    premises_steps,
};
use crate::emit_fact::{
    document_link_at, document_links_steps, fact_barrier_steps, fact_claim_steps, fact_link_at,
    fact_links_steps, fact_record_steps, fact_steps, live_edge_steps, mention_at,
    mention_resolution_steps, mention_words_steps, mentions_steps, object_steps, open_steps,
    opt_fact_steps, predicate_steps, properties_steps, property_at, property_node, property_steps,
    property_value_steps, qualifier_at, qualifier_steps, qualifiers_steps, resolved_time_steps,
    unit_steps,
};
use crate::emit_validity::validity_steps;
use crate::json::{json_compact, json_get, json_get_str, Json, JsonView};
use crate::laws_among::{among, group_among_cells, lemma_among_each, lemma_written};
use crate::laws_names::{rows_named_apart, RowName};
use crate::laws_terms::terms_are_told_apart;
use crate::laws_whole::{derived_is_written_iff, fact_is_written_iff};
use crate::literals::{
    confidence_literal, flag_literal, instant_literal, integer_literal, text_literal, value_literal,
    value_text, world_literal,
};
use crate::names::Names;
use crate::rows::{
    ExportDerived, ExportFact, ExportPremise, ExportStatementQualifier, ExportTimeMention,
    FactQualifier,
};
use crate::steps::{emitted, refusal};
use crate::term::{
    blank_states, link, prov_iri, rdf_iri, rdfs_iri, says, schema_iri, states, typed, utopia_iri,
    SubjectView, TermView, TripleView,
};
use crate::text::opt_text;
use crate::time::DateTime;
use crate::uuid::Uuid;
use crate::vocabulary::Vocabulary;
use vstd::prelude::*;
use vstd::string::*;

verus! {

// ---- The parts of a statement ----

/// What is said of the interval in which a statement holds: each end that is known, its precision
/// where that is finer than a day, and that it ended on an unknown day.
spec fn interval_said(
    stmt: Seq<char>,
    from: Option<DateTime>,
    from_precision: Option<Seq<char>>,
    to: Option<DateTime>,
    to_precision: Option<Seq<char>>,
    t: TripleView,
) -> bool {
    ||| from is Some && t == says(
        stmt,
        schema_iri("validFrom"@),
        world_literal(from->0, from_precision),
    )
    ||| from is Some && (from_precision == Some("hour"@) || from_precision == Some("minute"@)
        || from_precision == Some("second"@)) && t == says(
        stmt,
        utopia_iri("validFromPrecision"@),
        text_literal(from_precision->0),
    )
    ||| to is Some && t == says(
        stmt,
        schema_iri("validThrough"@),
        world_literal(to->0, to_precision),
    )
    ||| to is Some && (to_precision == Some("hour"@) || to_precision == Some("minute"@)
        || to_precision == Some("second"@)) && t == says(
        stmt,
        utopia_iri("validThroughPrecision"@),
        text_literal(to_precision->0),
    )
    ||| to is None && to_precision == Some("unknown"@) && t == says(
        stmt,
        utopia_iri("endedUnknown"@),
        flag_literal(true),
    )
}

broadcast proof fn lemma_among_validity(
    stmt: Seq<char>,
    from: Option<DateTime>,
    from_precision: Option<Seq<char>>,
    to: Option<DateTime>,
    to_precision: Option<Seq<char>>,
    t: TripleView,
)
    ensures
        #[trigger] among(validity_steps(stmt, from, from_precision, to, to_precision), t)
            <==> interval_said(stmt, from, from_precision, to, to_precision, t),
{
    broadcast use group_among_cells;

    reveal(validity_steps);
}

broadcast proof fn lemma_among_unit(stmt: Seq<char>, value: Option<Json>, t: TripleView)
    ensures
        #[trigger] among(unit_steps(stmt, value), t) <==> value is Some && json_get_str(
            value->0@,
            "unit"@,
        ) is Some && t == says(
            stmt,
            utopia_iri("unit"@),
            text_literal(json_get_str(value->0@, "unit"@)->0),
        ),
{
    broadcast use group_among_cells;

    reveal(unit_steps);
}

broadcast proof fn lemma_among_fact_links(
    names: Names,
    s: Seq<char>,
    p: Seq<char>,
    ids: Seq<Uuid>,
    t: TripleView,
)
    ensures
        #[trigger] among(fact_links_steps(names, s, p, ids), t) <==> exists|i: int|
            0 <= i < ids.len() && t == link(s, p, names.fact_iri(#[trigger] ids[i])),
{
    broadcast use group_among_cells;

    reveal(fact_links_steps);
    let f = fact_link_at(names, s, p, ids);
    lemma_among_each(ids.len(), f, t);
    if exists|i: int| 0 <= i < ids.len() && t == link(s, p, names.fact_iri(#[trigger] ids[i])) {
        let i = choose|i: int|
            0 <= i < ids.len() && t == link(s, p, names.fact_iri(#[trigger] ids[i]));
        assert(among(f(i), t));
    }
    if exists|i: int| 0 <= i < ids.len() && among(#[trigger] f(i), t) {
        let i = choose|i: int| 0 <= i < ids.len() && among(#[trigger] f(i), t);
        assert(t == link(s, p, names.fact_iri(ids[i])));
    }
}

broadcast proof fn lemma_among_document_links(
    names: Names,
    s: Seq<char>,
    p: Seq<char>,
    ids: Seq<Uuid>,
    t: TripleView,
)
    ensures
        #[trigger] among(document_links_steps(names, s, p, ids), t) <==> exists|i: int|
            0 <= i < ids.len() && t == link(s, p, names.document_iri(#[trigger] ids[i])),
{
    broadcast use group_among_cells;

    reveal(document_links_steps);
    let f = document_link_at(names, s, p, ids);
    lemma_among_each(ids.len(), f, t);
    if exists|i: int| 0 <= i < ids.len() && t == link(s, p, names.document_iri(#[trigger] ids[i])) {
        let i = choose|i: int|
            0 <= i < ids.len() && t == link(s, p, names.document_iri(#[trigger] ids[i]));
        assert(among(f(i), t));
    }
    if exists|i: int| 0 <= i < ids.len() && among(#[trigger] f(i), t) {
        let i = choose|i: int| 0 <= i < ids.len() && among(#[trigger] f(i), t);
        assert(t == link(s, p, names.document_iri(ids[i])));
    }
}

/// What a property of an edge says: under the relation that is its type, its value with the declared
/// datatype, or else the entity.
spec fn qualifier_said(
    names: Names,
    vocab: Vocabulary,
    stmt: Seq<char>,
    q: FactQualifier,
    t: TripleView,
) -> bool {
    &&& vocab.relation_iri(q.qualifier_type_id) is Some
    &&& ({
        ||| q.value is Some && t == says(
            stmt,
            vocab.relation_iri(q.qualifier_type_id)->0,
            value_literal(q.value->0@, vocab.datatype(q.qualifier_type_id)),
        )
        ||| q.value is None && q.entity_id is Some && t == link(
            stmt,
            vocab.relation_iri(q.qualifier_type_id)->0,
            names.entity_iri(q.entity_id->0),
        )
    })
}

broadcast proof fn lemma_among_qualifiers(
    names: Names,
    vocab: Vocabulary,
    stmt: Seq<char>,
    qs: Seq<FactQualifier>,
    t: TripleView,
)
    ensures
        #[trigger] among(qualifiers_steps(names, vocab, stmt, qs), t) <==> exists|i: int|
            0 <= i < qs.len() && qualifier_said(names, vocab, stmt, #[trigger] qs[i], t),
{
    broadcast use group_among_cells;

    reveal(qualifiers_steps);
    reveal(qualifier_steps);
    let f = qualifier_at(names, vocab, stmt, qs);
    lemma_among_each(qs.len(), f, t);
    if exists|i: int| 0 <= i < qs.len() && qualifier_said(names, vocab, stmt, #[trigger] qs[i], t) {
        let i = choose|i: int|
            0 <= i < qs.len() && qualifier_said(names, vocab, stmt, #[trigger] qs[i], t);
        assert(among(f(i), t));
    }
    if exists|i: int| 0 <= i < qs.len() && among(#[trigger] f(i), t) {
        let i = choose|i: int| 0 <= i < qs.len() && among(#[trigger] f(i), t);
        assert(qualifier_said(names, vocab, stmt, qs[i], t));
    }
}

/// What the `i`-th property of an open statement says: that the statement has it, the document's own
/// word for its role, and its value as JSON, or else the entity.
spec fn property_said(
    names: Names,
    stmt: Seq<char>,
    q: ExportStatementQualifier,
    i: nat,
    t: TripleView,
) -> bool {
    let node = property_node(q.fact_id, i);
    ||| t == states(stmt, utopia_iri("statementQualifier"@), TermView::Blank(node))
    ||| t == blank_states(
        node,
        rdf_iri("type"@),
        TermView::Named(utopia_iri("StatementQualifier"@)),
    )
    ||| t == blank_states(node, utopia_iri("role"@), TermView::Literal(text_literal(q.role@)))
    ||| q.value is Some && t == blank_states(
        node,
        utopia_iri("qualifierValue"@),
        TermView::Literal(text_literal(json_compact(q.value->0@))),
    )
    ||| q.value is None && q.entity_id is Some && t == blank_states(
        node,
        prov_iri("value"@),
        TermView::Named(names.entity_iri(q.entity_id->0)),
    )
}

broadcast proof fn lemma_among_properties(
    names: Names,
    stmt: Seq<char>,
    qs: Seq<ExportStatementQualifier>,
    t: TripleView,
)
    ensures
        #[trigger] among(properties_steps(names, stmt, qs), t) <==> exists|i: int|
            0 <= i < qs.len() && property_said(names, stmt, #[trigger] qs[i], i as nat, t),
{
    broadcast use group_among_cells;

    reveal(properties_steps);
    reveal(property_steps);
    reveal(property_value_steps);
    let f = property_at(names, stmt, qs);
    lemma_among_each(qs.len(), f, t);
    if exists|i: int|
        0 <= i < qs.len() && property_said(names, stmt, #[trigger] qs[i], i as nat, t) {
        let i = choose|i: int|
            0 <= i < qs.len() && property_said(names, stmt, #[trigger] qs[i], i as nat, t);
        assert(among(f(i), t));
    }
    if exists|i: int| 0 <= i < qs.len() && among(#[trigger] f(i), t) {
        let i = choose|i: int| 0 <= i < qs.len() && among(#[trigger] f(i), t);
        assert(property_said(names, stmt, qs[i], i as nat, t));
    }
}

/// What a time mention says: that the statement has it, its words and where they stand, and what they
/// resolve to.
spec fn mention_said(
    names: Names,
    stmt: Seq<char>,
    m: ExportTimeMention,
    t: TripleView,
) -> bool {
    let node = names.mention_iri(m.id);
    ||| t == link(stmt, utopia_iri("timeMention"@), node)
    ||| t == link(node, rdf_iri("type"@), utopia_iri("TimeMention"@))
    ||| t == says(node, utopia_iri("role"@), text_literal(m.role@))
    ||| t == says(node, utopia_iri("text"@), text_literal(m.text@))
    ||| t == says(node, utopia_iri("charStart"@), integer_literal(m.char_start as int))
    ||| t == link(node, utopia_iri("onChunk"@), names.chunk_iri(m.chunk_id))
    ||| m.shape is Some && t == says(node, utopia_iri("shape"@), text_literal(m.shape->0@))
    ||| m.reference is Some && t == says(
        node,
        utopia_iri("reference"@),
        text_literal(json_compact(m.reference->0@)),
    )
    ||| m.granularity is Some && t == says(
        node,
        utopia_iri("granularity"@),
        text_literal(m.granularity->0@),
    )
    ||| m.grade is Some && t == says(node, utopia_iri("grade"@), text_literal(m.grade->0@))
    ||| m.resolved_from is Some && t == says(
        node,
        utopia_iri("resolvedFrom"@),
        world_literal(m.resolved_from->0, opt_text(m.resolved_from_precision)),
    )
    ||| m.resolved_from_precision is Some && t == says(
        node,
        utopia_iri("resolvedFromPrecision"@),
        text_literal(m.resolved_from_precision->0@),
    )
    ||| m.resolved_to is Some && t == says(
        node,
        utopia_iri("resolvedTo"@),
        world_literal(m.resolved_to->0, opt_text(m.resolved_to_precision)),
    )
    ||| m.resolved_to_precision is Some && t == says(
        node,
        utopia_iri("resolvedToPrecision"@),
        text_literal(m.resolved_to_precision->0@),
    )
    ||| m.resolved_at is Some && t == says(
        node,
        utopia_iri("resolvedAt"@),
        instant_literal(m.resolved_at->0),
    )
    ||| t == says(node, prov_iri("generatedAtTime"@), instant_literal(m.recorded_at))
}

broadcast proof fn lemma_among_mentions(
    names: Names,
    stmt: Seq<char>,
    ms: Seq<ExportTimeMention>,
    t: TripleView,
)
    ensures
        #[trigger] among(mentions_steps(names, stmt, ms), t) <==> exists|i: int|
            0 <= i < ms.len() && mention_said(names, stmt, #[trigger] ms[i], t),
{
    broadcast use group_among_cells;

    reveal(mentions_steps);
    reveal(mention_words_steps);
    reveal(mention_resolution_steps);
    reveal(resolved_time_steps);
    let f = mention_at(names, stmt, ms);
    lemma_among_each(ms.len(), f, t);
    if exists|i: int| 0 <= i < ms.len() && mention_said(names, stmt, #[trigger] ms[i], t) {
        let i = choose|i: int| 0 <= i < ms.len() && mention_said(names, stmt, #[trigger] ms[i], t);
        assert(among(f(i), t));
    }
    if exists|i: int| 0 <= i < ms.len() && among(#[trigger] f(i), t) {
        let i = choose|i: int| 0 <= i < ms.len() && among(#[trigger] f(i), t);
        assert(mention_said(names, stmt, ms[i], t));
    }
}

/// What a premise says, twice: which fact the conclusion used, and at which place of the proof.
spec fn premise_said(
    names: Names,
    stmt: Seq<char>,
    derived_id: Uuid,
    p: ExportPremise,
    t: TripleView,
) -> bool {
    let node = names.premise_iri(derived_id, p.seq);
    &&& p.fact_id is Some || p.derived_id is Some
    &&& ({
        ||| p.fact_id is Some && t == link(stmt, prov_iri("used"@), names.fact_iri(p.fact_id->0))
        ||| p.fact_id is Some && t == link(node, prov_iri("used"@), names.fact_iri(p.fact_id->0))
        ||| p.fact_id is None && t == link(
            stmt,
            prov_iri("used"@),
            names.derived_iri(p.derived_id->0),
        )
        ||| p.fact_id is None && t == link(
            node,
            prov_iri("used"@),
            names.derived_iri(p.derived_id->0),
        )
        ||| t == link(stmt, utopia_iri("premise"@), node)
        ||| t == link(node, rdf_iri("type"@), utopia_iri("Premise"@))
        ||| t == says(node, utopia_iri("seq"@), integer_literal(p.seq as int))
    })
}

broadcast proof fn lemma_among_premises(
    names: Names,
    stmt: Seq<char>,
    derived_id: Uuid,
    ps: Seq<ExportPremise>,
    t: TripleView,
)
    ensures
        #[trigger] among(premises_steps(names, stmt, derived_id, ps), t) <==> exists|i: int|
            0 <= i < ps.len() && premise_said(names, stmt, derived_id, #[trigger] ps[i], t),
{
    broadcast use group_among_cells;

    reveal(premises_steps);
    reveal(premise_steps);
    let f = premise_at(names, stmt, derived_id, ps);
    lemma_among_each(ps.len(), f, t);
    if exists|i: int|
        0 <= i < ps.len() && premise_said(names, stmt, derived_id, #[trigger] ps[i], t) {
        let i = choose|i: int|
            0 <= i < ps.len() && premise_said(names, stmt, derived_id, #[trigger] ps[i], t);
        assert(among(f(i), t));
    }
    if exists|i: int| 0 <= i < ps.len() && among(#[trigger] f(i), t) {
        let i = choose|i: int| 0 <= i < ps.len() && among(#[trigger] f(i), t);
        assert(premise_said(names, stmt, derived_id, ps[i], t));
    }
}

broadcast group group_among_parts {
    group_among_cells,
    lemma_among_validity,
    lemma_among_unit,
    lemma_among_fact_links,
    lemma_among_document_links,
    lemma_among_qualifiers,
    lemma_among_properties,
    lemma_among_mentions,
    lemma_among_premises,
}

// ---- Facts ----

/// What the claim of a fact says: that it is a statement and of which layer, what it was computed
/// from, its subject, its relation or the words that were heard, its object, and the unit.
spec fn claim_said(names: Names, vocab: Vocabulary, f: ExportFact, t: TripleView) -> bool {
    let stmt = names.fact_iri(f.id);
    let known = f.predicate_id is Some && vocab.relation_iri(f.predicate_id->0) is Some;
    ||| t == link(stmt, rdf_iri("type"@), rdf_iri("Statement"@))
    ||| t == says(stmt, utopia_iri("statementLayer"@), text_literal(f.layer@))
    ||| f.layer@ == "open"@ && t == link(stmt, rdf_iri("type"@), utopia_iri("OpenStatement"@))
    ||| f.layer@ == "open"@ && f.phrase is Some && t == says(
        stmt,
        rdfs_iri("label"@),
        text_literal(f.phrase->0@),
    )
    ||| exists|i: int|
        0 <= i < f.source_statements@.len() && t == link(
            stmt,
            utopia_iri("fromStatement"@),
            names.fact_iri(#[trigger] f.source_statements@[i]),
        )
    ||| t == link(stmt, rdf_iri("subject"@), names.entity_iri(f.subject_id))
    ||| known && t == link(stmt, rdf_iri("predicate"@), vocab.relation_iri(f.predicate_id->0)->0)
    ||| !known && f.surface_predicate is Some && t == says(
        stmt,
        utopia_iri("proposedPredicate"@),
        text_literal(f.surface_predicate->0@),
    )
    ||| f.object_id is Some && t == link(
        stmt,
        rdf_iri("object"@),
        names.entity_iri(f.object_id->0),
    )
    ||| f.object_id is None && f.object_value is Some && t == says(
        stmt,
        rdf_iri("object"@),
        value_literal(
            f.object_value->0@,
            if f.predicate_id is Some {
                vocab.datatype(f.predicate_id->0)
            } else {
                None
            },
        ),
    )
    ||| f.object_value is Some && json_get(f.object_value->0@, "relative"@) == Some(
        JsonView::Bool(true),
    ) && t == says(stmt, utopia_iri("relativeValue"@), flag_literal(true))
    ||| f.object_value is Some && json_get_str(f.object_value->0@, "unit"@) is Some && t == says(
        stmt,
        utopia_iri("unit"@),
        text_literal(json_get_str(f.object_value->0@, "unit"@)->0),
    )
}

proof fn lemma_claim(names: Names, vocab: Vocabulary, f: ExportFact, t: TripleView)
    ensures
        among(fact_claim_steps(names, vocab, f), t) <==> claim_said(names, vocab, f, t),
{
    broadcast use group_among_parts;

    reveal(fact_claim_steps);
    reveal(open_steps);
    reveal(predicate_steps);
    reveal(object_steps);
}

/// What the record of a fact says: when it holds and since when it is attested, when it was recorded
/// and retracted, how sure it is, what it replaces, and on what it rests.
spec fn record_said(names: Names, f: ExportFact, t: TripleView) -> bool {
    let stmt = names.fact_iri(f.id);
    ||| interval_said(
        stmt,
        f.valid_from,
        opt_text(f.valid_from_precision),
        f.valid_to,
        opt_text(f.valid_to_precision),
        t,
    )
    ||| f.valid_from_grade is Some && t == says(
        stmt,
        utopia_iri("validFromGrade"@),
        text_literal(f.valid_from_grade->0@),
    )
    ||| t == says(stmt, utopia_iri("attestedFrom"@), instant_literal(f.attested_from))
    ||| f.attested_to is Some && t == says(
        stmt,
        utopia_iri("attestedTo"@),
        instant_literal(f.attested_to->0),
    )
    ||| f.end_derived && t == says(stmt, utopia_iri("endDerived"@), flag_literal(true))
    ||| f.rule_derived && t == says(stmt, utopia_iri("ruleDerived"@), flag_literal(true))
    ||| t == says(stmt, prov_iri("generatedAtTime"@), instant_literal(f.recorded_at))
    ||| f.invalidated_at is Some && t == says(
        stmt,
        prov_iri("invalidatedAtTime"@),
        instant_literal(f.invalidated_at->0),
    )
    ||| t == says(stmt, utopia_iri("confidence"@), confidence_literal(f.confidence@))
    ||| f.supersedes is Some && t == link(
        stmt,
        utopia_iri("supersedes"@),
        names.fact_iri(f.supersedes->0),
    )
    ||| exists|i: int|
        0 <= i < f.documents@.len() && t == link(
            stmt,
            prov_iri("wasDerivedFrom"@),
            names.document_iri(#[trigger] f.documents@[i]),
        )
    ||| exists|i: int|
        0 <= i < f.quotes@.len() && t == says(
            stmt,
            utopia_iri("quote"@),
            text_literal((#[trigger] f.quotes@[i])@),
        )
    ||| exists|i: int|
        0 <= i < f.quote_origins@.len() && t == says(
            stmt,
            utopia_iri("evidenceOrigin"@),
            text_literal((#[trigger] f.quote_origins@[i])@),
        )
}

proof fn lemma_record(names: Names, f: ExportFact, t: TripleView)
    ensures
        among(fact_record_steps(names, f), t) <==> record_said(names, f, t),
{
    broadcast use group_among_parts;

    reveal(fact_record_steps);
    reveal(opt_fact_steps);
}

/// The edge of a fact is written while it is held and holds: it was not retracted, it has begun, and
/// it has not ended.
spec fn edge_said(
    names: Names,
    vocab: Vocabulary,
    f: ExportFact,
    now: DateTime,
    t: TripleView,
) -> bool {
    &&& f.invalidated_at is None
    &&& f.holds_from is Some
    &&& f.holds_from->0.seconds() < now.seconds() || (f.holds_from->0.seconds() == now.seconds()
        && f.holds_from->0.subsecond() <= now.subsecond())
    &&& f.holds_to is None || now.seconds() < f.holds_to->0.seconds() || (now.seconds()
        == f.holds_to->0.seconds() && now.subsecond() < f.holds_to->0.subsecond())
    &&& f.predicate_id is Some && vocab.relation_iri(f.predicate_id->0) is Some
    &&& ({
        ||| f.object_id is Some && t == link(
            names.entity_iri(f.subject_id),
            vocab.relation_iri(f.predicate_id->0)->0,
            names.entity_iri(f.object_id->0),
        )
        ||| f.object_id is None && f.object_value is Some && t == says(
            names.entity_iri(f.subject_id),
            vocab.relation_iri(f.predicate_id->0)->0,
            value_literal(f.object_value->0@, vocab.datatype(f.predicate_id->0)),
        )
    })
}

proof fn lemma_edge(names: Names, vocab: Vocabulary, f: ExportFact, now: DateTime, t: TripleView)
    ensures
        among(live_edge_steps(names, vocab, f, now), t) <==> edge_said(names, vocab, f, now, t),
{
    broadcast use group_among_cells;

    reveal(live_edge_steps);
}

/// Of a fact exactly this is written: that it is a statement and of which layer, what it was computed
/// from, its subject, its relation or the words that were heard, its object and the unit; when it
/// holds, when it was recorded and retracted, how sure it is and on what it rests; every property of
/// its edge, every property and every time mention of an open statement; and the edge itself while it
/// is held and holds.
pub proof fn fact_says(
    names: Names,
    vocab: Vocabulary,
    f: ExportFact,
    now: DateTime,
    t: TripleView,
)
    ensures
        ({
            let stmt = names.fact_iri(f.id);
            let written = emitted(fact_steps(names, vocab, f, now));
            let said = {
                ||| ({
                    let known = f.predicate_id is Some && vocab.relation_iri(f.predicate_id->0) is Some;
                    ||| t == link(stmt, rdf_iri("type"@), rdf_iri("Statement"@))
                    ||| t == says(stmt, utopia_iri("statementLayer"@), text_literal(f.layer@))
                    ||| f.layer@ == "open"@ && t == link(stmt, rdf_iri("type"@), utopia_iri("OpenStatement"@))
                    ||| f.layer@ == "open"@ && f.phrase is Some && t == says(
                        stmt,
                        rdfs_iri("label"@),
                        text_literal(f.phrase->0@),
                    )
                    ||| exists|i: int|
                        0 <= i < f.source_statements@.len() && t == link(
                            stmt,
                            utopia_iri("fromStatement"@),
                            names.fact_iri(#[trigger] f.source_statements@[i]),
                        )
                    ||| t == link(stmt, rdf_iri("subject"@), names.entity_iri(f.subject_id))
                    ||| known && t == link(stmt, rdf_iri("predicate"@), vocab.relation_iri(f.predicate_id->0)->0)
                    ||| !known && f.surface_predicate is Some && t == says(
                        stmt,
                        utopia_iri("proposedPredicate"@),
                        text_literal(f.surface_predicate->0@),
                    )
                    ||| f.object_id is Some && t == link(
                        stmt,
                        rdf_iri("object"@),
                        names.entity_iri(f.object_id->0),
                    )
                    ||| f.object_id is None && f.object_value is Some && t == says(
                        stmt,
                        rdf_iri("object"@),
                        value_literal(
                            f.object_value->0@,
                            if f.predicate_id is Some {
                                vocab.datatype(f.predicate_id->0)
                            } else {
                                None
                            },
                        ),
                    )
                    ||| f.object_value is Some && json_get(f.object_value->0@, "relative"@) == Some(
                        JsonView::Bool(true),
                    ) && t == says(stmt, utopia_iri("relativeValue"@), flag_literal(true))
                    ||| f.object_value is Some && json_get_str(f.object_value->0@, "unit"@) is Some && t == says(
                        stmt,
                        utopia_iri("unit"@),
                        text_literal(json_get_str(f.object_value->0@, "unit"@)->0),
                    )
                })
                ||| ({
                    ||| ({
                        let from = f.valid_from;
                        let from_precision = opt_text(f.valid_from_precision);
                        let to = f.valid_to;
                        let to_precision = opt_text(f.valid_to_precision);
                        ||| from is Some && t == says(
                            stmt,
                            schema_iri("validFrom"@),
                            world_literal(from->0, from_precision),
                        )
                        ||| from is Some && (from_precision == Some("hour"@) || from_precision == Some("minute"@)
                            || from_precision == Some("second"@)) && t == says(
                            stmt,
                            utopia_iri("validFromPrecision"@),
                            text_literal(from_precision->0),
                        )
                        ||| to is Some && t == says(
                            stmt,
                            schema_iri("validThrough"@),
                            world_literal(to->0, to_precision),
                        )
                        ||| to is Some && (to_precision == Some("hour"@) || to_precision == Some("minute"@)
                            || to_precision == Some("second"@)) && t == says(
                            stmt,
                            utopia_iri("validThroughPrecision"@),
                            text_literal(to_precision->0),
                        )
                        ||| to is None && to_precision == Some("unknown"@) && t == says(
                            stmt,
                            utopia_iri("endedUnknown"@),
                            flag_literal(true),
                        )
                    })
                    ||| f.valid_from_grade is Some && t == says(
                        stmt,
                        utopia_iri("validFromGrade"@),
                        text_literal(f.valid_from_grade->0@),
                    )
                    ||| t == says(stmt, utopia_iri("attestedFrom"@), instant_literal(f.attested_from))
                    ||| f.attested_to is Some && t == says(
                        stmt,
                        utopia_iri("attestedTo"@),
                        instant_literal(f.attested_to->0),
                    )
                    ||| f.end_derived && t == says(stmt, utopia_iri("endDerived"@), flag_literal(true))
                    ||| f.rule_derived && t == says(stmt, utopia_iri("ruleDerived"@), flag_literal(true))
                    ||| t == says(stmt, prov_iri("generatedAtTime"@), instant_literal(f.recorded_at))
                    ||| f.invalidated_at is Some && t == says(
                        stmt,
                        prov_iri("invalidatedAtTime"@),
                        instant_literal(f.invalidated_at->0),
                    )
                    ||| t == says(stmt, utopia_iri("confidence"@), confidence_literal(f.confidence@))
                    ||| f.supersedes is Some && t == link(
                        stmt,
                        utopia_iri("supersedes"@),
                        names.fact_iri(f.supersedes->0),
                    )
                    ||| exists|i: int|
                        0 <= i < f.documents@.len() && t == link(
                            stmt,
                            prov_iri("wasDerivedFrom"@),
                            names.document_iri(#[trigger] f.documents@[i]),
                        )
                    ||| exists|i: int|
                        0 <= i < f.quotes@.len() && t == says(
                            stmt,
                            utopia_iri("quote"@),
                            text_literal((#[trigger] f.quotes@[i])@),
                        )
                    ||| exists|i: int|
                        0 <= i < f.quote_origins@.len() && t == says(
                            stmt,
                            utopia_iri("evidenceOrigin"@),
                            text_literal((#[trigger] f.quote_origins@[i])@),
                        )
                })
                ||| exists|i: int|
                    #![trigger f.qualifiers@[i]]
                    0 <= i < f.qualifiers@.len() && ({
                        let q = f.qualifiers@[i];
                        &&& vocab.relation_iri(q.qualifier_type_id) is Some
                        &&& ({
                            ||| q.value is Some && t == says(
                                stmt,
                                vocab.relation_iri(q.qualifier_type_id)->0,
                                value_literal(q.value->0@, vocab.datatype(q.qualifier_type_id)),
                            )
                            ||| q.value is None && q.entity_id is Some && t == link(
                                stmt,
                                vocab.relation_iri(q.qualifier_type_id)->0,
                                names.entity_iri(q.entity_id->0),
                            )
                        })
                    })
                ||| exists|i: int|
                    #![trigger f.statement_qualifiers@[i]]
                    0 <= i < f.statement_qualifiers@.len() && ({
                        let q = f.statement_qualifiers@[i];
                        let node = property_node(q.fact_id, i as nat);
                        ||| t == states(stmt, utopia_iri("statementQualifier"@), TermView::Blank(node))
                        ||| t == blank_states(
                            node,
                            rdf_iri("type"@),
                            TermView::Named(utopia_iri("StatementQualifier"@)),
                        )
                        ||| t == blank_states(node, utopia_iri("role"@), TermView::Literal(text_literal(q.role@)))
                        ||| q.value is Some && t == blank_states(
                            node,
                            utopia_iri("qualifierValue"@),
                            TermView::Literal(text_literal(json_compact(q.value->0@))),
                        )
                        ||| q.value is None && q.entity_id is Some && t == blank_states(
                            node,
                            prov_iri("value"@),
                            TermView::Named(names.entity_iri(q.entity_id->0)),
                        )
                    })
                ||| exists|i: int|
                    #![trigger f.time_mentions@[i]]
                    0 <= i < f.time_mentions@.len() && ({
                        let m = f.time_mentions@[i];
                        let node = names.mention_iri(m.id);
                        ||| t == link(stmt, utopia_iri("timeMention"@), node)
                        ||| t == link(node, rdf_iri("type"@), utopia_iri("TimeMention"@))
                        ||| t == says(node, utopia_iri("role"@), text_literal(m.role@))
                        ||| t == says(node, utopia_iri("text"@), text_literal(m.text@))
                        ||| t == says(node, utopia_iri("charStart"@), integer_literal(m.char_start as int))
                        ||| t == link(node, utopia_iri("onChunk"@), names.chunk_iri(m.chunk_id))
                        ||| m.shape is Some && t == says(node, utopia_iri("shape"@), text_literal(m.shape->0@))
                        ||| m.reference is Some && t == says(
                            node,
                            utopia_iri("reference"@),
                            text_literal(json_compact(m.reference->0@)),
                        )
                        ||| m.granularity is Some && t == says(
                            node,
                            utopia_iri("granularity"@),
                            text_literal(m.granularity->0@),
                        )
                        ||| m.grade is Some && t == says(node, utopia_iri("grade"@), text_literal(m.grade->0@))
                        ||| m.resolved_from is Some && t == says(
                            node,
                            utopia_iri("resolvedFrom"@),
                            world_literal(m.resolved_from->0, opt_text(m.resolved_from_precision)),
                        )
                        ||| m.resolved_from_precision is Some && t == says(
                            node,
                            utopia_iri("resolvedFromPrecision"@),
                            text_literal(m.resolved_from_precision->0@),
                        )
                        ||| m.resolved_to is Some && t == says(
                            node,
                            utopia_iri("resolvedTo"@),
                            world_literal(m.resolved_to->0, opt_text(m.resolved_to_precision)),
                        )
                        ||| m.resolved_to_precision is Some && t == says(
                            node,
                            utopia_iri("resolvedToPrecision"@),
                            text_literal(m.resolved_to_precision->0@),
                        )
                        ||| m.resolved_at is Some && t == says(
                            node,
                            utopia_iri("resolvedAt"@),
                            instant_literal(m.resolved_at->0),
                        )
                        ||| t == says(node, prov_iri("generatedAtTime"@), instant_literal(m.recorded_at))
                    })
                ||| ({
                    &&& f.invalidated_at is None
                    &&& f.holds_from is Some
                    &&& f.holds_from->0.seconds() < now.seconds() || (f.holds_from->0.seconds() == now.seconds()
                        && f.holds_from->0.subsecond() <= now.subsecond())
                    &&& f.holds_to is None || now.seconds() < f.holds_to->0.seconds() || (now.seconds()
                        == f.holds_to->0.seconds() && now.subsecond() < f.holds_to->0.subsecond())
                    &&& f.predicate_id is Some && vocab.relation_iri(f.predicate_id->0) is Some
                    &&& ({
                        ||| f.object_id is Some && t == link(
                            names.entity_iri(f.subject_id),
                            vocab.relation_iri(f.predicate_id->0)->0,
                            names.entity_iri(f.object_id->0),
                        )
                        ||| f.object_id is None && f.object_value is Some && t == says(
                            names.entity_iri(f.subject_id),
                            vocab.relation_iri(f.predicate_id->0)->0,
                            value_literal(f.object_value->0@, vocab.datatype(f.predicate_id->0)),
                        )
                    })
                })
            };
            &&& written.contains(t) ==> said
            &&& said && refusal(fact_steps(names, vocab, f, now)) is None ==> written.contains(t)
        }),
{
    let stmt = names.fact_iri(f.id);
    lemma_claim(names, vocab, f, t);
    lemma_record(names, f, t);
    lemma_edge(names, vocab, f, now, t);
    lemma_written(fact_steps(names, vocab, f, now), t);
    assert(!among(fact_barrier_steps(names, vocab, f), t)) by {
        broadcast use group_among_cells;

        reveal(fact_barrier_steps);
    }
    broadcast use group_among_parts;

}

// ---- Derived facts ----

/// What a derived fact says besides its premises.
spec fn conclusion_said(names: Names, vocab: Vocabulary, d: ExportDerived, t: TripleView) -> bool {
    let stmt = names.derived_iri(d.id);
    ||| t == link(stmt, rdf_iri("type"@), rdf_iri("Statement"@))
    ||| t == link(stmt, rdf_iri("subject"@), names.entity_iri(d.subject_id))
    ||| vocab.relation_iri(d.predicate_id) is Some && t == link(
        stmt,
        rdf_iri("predicate"@),
        vocab.relation_iri(d.predicate_id)->0,
    )
    ||| d.object_id is Some && t == link(
        stmt,
        rdf_iri("object"@),
        names.entity_iri(d.object_id->0),
    )
    ||| d.object_id is None && d.object_value is Some && t == says(
        stmt,
        rdf_iri("object"@),
        value_literal(d.object_value->0@, vocab.datatype(d.predicate_id)),
    )
    ||| t == says(stmt, utopia_iri("derived"@), flag_literal(true))
    ||| d.object_value is Some && json_get_str(d.object_value->0@, "unit"@) is Some && t == says(
        stmt,
        utopia_iri("unit"@),
        text_literal(json_get_str(d.object_value->0@, "unit"@)->0),
    )
    ||| interval_said(
        stmt,
        d.valid_from,
        opt_text(d.valid_from_precision),
        d.valid_to,
        opt_text(d.valid_to_precision),
        t,
    )
    ||| t == says(stmt, prov_iri("generatedAtTime"@), instant_literal(d.derived_at))
    ||| d.invalidated_at is Some && t == says(
        stmt,
        prov_iri("invalidatedAtTime"@),
        instant_literal(d.invalidated_at->0),
    )
    ||| t == says(stmt, utopia_iri("confidence"@), confidence_literal(d.confidence@))
    ||| d.rule_id is Some && t == link(
        stmt,
        prov_iri("wasGeneratedBy"@),
        names.rule_iri(d.rule_id->0),
    )
    ||| d.rule_id is None && d.attribute_rule_id is Some && t == link(
        stmt,
        prov_iri("wasGeneratedBy"@),
        names.attribute_rule_iri(d.attribute_rule_id->0),
    )
}

/// Of a derived fact that is not refused exactly this is written: that it is a statement and was
/// derived, its subject, relation, object and unit, when it holds, when it was derived and retracted,
/// how sure it is, the axiom or else the business rule that derived it, and each premise.
pub proof fn derived_says(names: Names, vocab: Vocabulary, d: ExportDerived, t: TripleView)
    requires
        refusal(derived_steps(names, vocab, d)) is None,
    ensures
        ({
            let stmt = names.derived_iri(d.id);
            let written = emitted(derived_steps(names, vocab, d));
            let said = {
                ||| ({
                    ||| t == link(stmt, rdf_iri("type"@), rdf_iri("Statement"@))
                    ||| t == link(stmt, rdf_iri("subject"@), names.entity_iri(d.subject_id))
                    ||| vocab.relation_iri(d.predicate_id) is Some && t == link(
                        stmt,
                        rdf_iri("predicate"@),
                        vocab.relation_iri(d.predicate_id)->0,
                    )
                    ||| d.object_id is Some && t == link(
                        stmt,
                        rdf_iri("object"@),
                        names.entity_iri(d.object_id->0),
                    )
                    ||| d.object_id is None && d.object_value is Some && t == says(
                        stmt,
                        rdf_iri("object"@),
                        value_literal(d.object_value->0@, vocab.datatype(d.predicate_id)),
                    )
                    ||| t == says(stmt, utopia_iri("derived"@), flag_literal(true))
                    ||| d.object_value is Some && json_get_str(d.object_value->0@, "unit"@) is Some && t == says(
                        stmt,
                        utopia_iri("unit"@),
                        text_literal(json_get_str(d.object_value->0@, "unit"@)->0),
                    )
                    ||| ({
                        let from = d.valid_from;
                        let from_precision = opt_text(d.valid_from_precision);
                        let to = d.valid_to;
                        let to_precision = opt_text(d.valid_to_precision);
                        ||| from is Some && t == says(
                            stmt,
                            schema_iri("validFrom"@),
                            world_literal(from->0, from_precision),
                        )
                        ||| from is Some && (from_precision == Some("hour"@) || from_precision == Some("minute"@)
                            || from_precision == Some("second"@)) && t == says(
                            stmt,
                            utopia_iri("validFromPrecision"@),
                            text_literal(from_precision->0),
                        )
                        ||| to is Some && t == says(
                            stmt,
                            schema_iri("validThrough"@),
                            world_literal(to->0, to_precision),
                        )
                        ||| to is Some && (to_precision == Some("hour"@) || to_precision == Some("minute"@)
                            || to_precision == Some("second"@)) && t == says(
                            stmt,
                            utopia_iri("validThroughPrecision"@),
                            text_literal(to_precision->0),
                        )
                        ||| to is None && to_precision == Some("unknown"@) && t == says(
                            stmt,
                            utopia_iri("endedUnknown"@),
                            flag_literal(true),
                        )
                    })
                    ||| t == says(stmt, prov_iri("generatedAtTime"@), instant_literal(d.derived_at))
                    ||| d.invalidated_at is Some && t == says(
                        stmt,
                        prov_iri("invalidatedAtTime"@),
                        instant_literal(d.invalidated_at->0),
                    )
                    ||| t == says(stmt, utopia_iri("confidence"@), confidence_literal(d.confidence@))
                    ||| d.rule_id is Some && t == link(
                        stmt,
                        prov_iri("wasGeneratedBy"@),
                        names.rule_iri(d.rule_id->0),
                    )
                    ||| d.rule_id is None && d.attribute_rule_id is Some && t == link(
                        stmt,
                        prov_iri("wasGeneratedBy"@),
                        names.attribute_rule_iri(d.attribute_rule_id->0),
                    )
                })
                ||| exists|i: int|
                    #![trigger d.premises@[i]]
                    0 <= i < d.premises@.len() && ({
                        let p = d.premises@[i];
                        let node = names.premise_iri(d.id, p.seq);
                        &&& p.fact_id is Some || p.derived_id is Some
                        &&& ({
                            ||| p.fact_id is Some && t == link(stmt, prov_iri("used"@), names.fact_iri(p.fact_id->0))
                            ||| p.fact_id is Some && t == link(node, prov_iri("used"@), names.fact_iri(p.fact_id->0))
                            ||| p.fact_id is None && t == link(
                                stmt,
                                prov_iri("used"@),
                                names.derived_iri(p.derived_id->0),
                            )
                            ||| p.fact_id is None && t == link(
                                node,
                                prov_iri("used"@),
                                names.derived_iri(p.derived_id->0),
                            )
                            ||| t == link(stmt, utopia_iri("premise"@), node)
                            ||| t == link(node, rdf_iri("type"@), utopia_iri("Premise"@))
                            ||| t == says(node, utopia_iri("seq"@), integer_literal(p.seq as int))
                        })
                    })
            };
            written.contains(t) <==> said
        }),
{
    let stmt = names.derived_iri(d.id);
    lemma_written(derived_steps(names, vocab, d), t);
    derived_is_written_iff(names, vocab, d);
    assert(!among(derived_barrier_steps(names, d), t)) by {
        broadcast use group_among_cells;

        reveal(derived_barrier_steps);
    }
    broadcast use group_among_parts;

    reveal(derived_object_steps);
    assert(conclusion_said(names, vocab, d, t) || (exists|i: int|
        0 <= i < d.premises@.len() && premise_said(names, stmt, d.id, #[trigger] d.premises@[i], t))
        <==> among(derived_steps(names, vocab, d), t));
}

proof fn lemma_entity_apart(names: Names, x: Uuid, y: Uuid)
    ensures
        names.entity_iri(x) != names.fact_iri(y),
        names.entity_iri(x) != names.mention_iri(y),
{
    if names.entity_iri(x) == names.fact_iri(y) {
        rows_named_apart(names, RowName::Entity(x), RowName::Fact(y));
    }
    if names.entity_iri(x) == names.mention_iri(y) {
        rows_named_apart(names, RowName::Entity(x), RowName::Mention(y));
    }
}

proof fn lemma_word_lengths()
    ensures
        "statementLayer"@.len() == 14,
        "proposedPredicate"@.len() == 17,
        "relativeValue"@.len() == 13,
        "unit"@.len() == 4,
        "validFromPrecision"@.len() == 18,
        "validThroughPrecision"@.len() == 21,
        "endedUnknown"@.len() == 12 && "endedUnknown"@[0] == 'e',
        "validFromGrade"@.len() == 14,
        "attestedFrom"@.len() == 12 && "attestedFrom"@[0] == 'a',
        "attestedTo"@.len() == 10,
        "endDerived"@.len() == 10,
        "ruleDerived"@.len() == 11,
        "confidence"@.len() == 10,
        "quote"@.len() == 5,
        "evidenceOrigin"@.len() == 14,
        "role"@.len() == 4,
        "text"@.len() == 4,
        "charStart"@.len() == 9,
        "shape"@.len() == 5,
        "reference"@.len() == 9,
        "granularity"@.len() == 11,
        "grade"@.len() == 5,
        "resolvedFrom"@.len() == 12 && "resolvedFrom"@[0] == 'r',
        "resolvedFromPrecision"@.len() == 21,
        "resolvedTo"@.len() == 10,
        "resolvedToPrecision"@.len() == 19,
        "resolvedAt"@.len() == 10,
        "derived"@.len() == 7,
        "seq"@.len() == 3,
        "qualifierValue"@.len() == 14,
{
    reveal_strlit("statementLayer");
    reveal_strlit("proposedPredicate");
    reveal_strlit("relativeValue");
    reveal_strlit("unit");
    reveal_strlit("validFromPrecision");
    reveal_strlit("validThroughPrecision");
    reveal_strlit("endedUnknown");
    reveal_strlit("validFromGrade");
    reveal_strlit("attestedFrom");
    reveal_strlit("attestedTo");
    reveal_strlit("endDerived");
    reveal_strlit("ruleDerived");
    reveal_strlit("confidence");
    reveal_strlit("quote");
    reveal_strlit("evidenceOrigin");
    reveal_strlit("role");
    reveal_strlit("text");
    reveal_strlit("charStart");
    reveal_strlit("shape");
    reveal_strlit("reference");
    reveal_strlit("granularity");
    reveal_strlit("grade");
    reveal_strlit("resolvedFrom");
    reveal_strlit("resolvedFromPrecision");
    reveal_strlit("resolvedTo");
    reveal_strlit("resolvedToPrecision");
    reveal_strlit("resolvedAt");
    reveal_strlit("derived");
    reveal_strlit("seq");
    reveal_strlit("qualifierValue");
}

/// The edge of a fact is among its triples exactly while the fact is held and holds: it was not
/// retracted, the interval in which it holds has begun and has not ended. Nothing else of the fact
/// counts: neither the end that the source states, nor how precisely it is known, nor since when it
/// is attested.
pub proof fn edge_is_written_exactly_while_the_fact_holds(
    names: Names,
    vocab: Vocabulary,
    f: ExportFact,
    now: DateTime,
    relation: Uuid,
)
    requires
        refusal(fact_steps(names, vocab, f, now)) is None,
        f.predicate_id == Some(relation),
        f.object_id is Some || f.object_value is Some,
    ensures
        ({
            let edge = TripleView {
                subject: SubjectView::Named(names.entity_iri(f.subject_id)),
                predicate: vocab.relation_iri(relation)->0,
                object: match f.object_id {
                    Some(o) => TermView::Named(names.entity_iri(o)),
                    None => TermView::Literal(
                        value_literal(f.object_value->0@, vocab.datatype(relation)),
                    ),
                },
            };
            emitted(fact_steps(names, vocab, f, now)).contains(edge) <==> {
                &&& f.invalidated_at is None
                &&& f.holds_from matches Some(a) && (a.seconds() < now.seconds() || (a.seconds()
                    == now.seconds() && a.subsecond() <= now.subsecond()))
                &&& f.holds_to matches Some(b) ==> now.seconds() < b.seconds() || (now.seconds()
                    == b.seconds() && now.subsecond() < b.subsecond())
            }
        }),
{
    let edge = TripleView {
        subject: SubjectView::Named(names.entity_iri(f.subject_id)),
        predicate: vocab.relation_iri(relation)->0,
        object: match f.object_id {
            Some(o) => TermView::Named(names.entity_iri(o)),
            None => TermView::Literal(value_literal(f.object_value->0@, vocab.datatype(relation))),
        },
    };
    fact_is_written_iff(names, vocab, f, now);
    fact_says(names, vocab, f, now, edge);
    lemma_entity_apart(names, f.subject_id, f.id);
    assert forall|i: int| 0 <= i < f.time_mentions@.len() implies names.entity_iri(f.subject_id)
        != names.mention_iri((#[trigger] f.time_mentions@[i]).id) by {
        lemma_entity_apart(names, f.subject_id, f.time_mentions@[i].id);
    }
}

/// A fact says that it ended on an unknown day exactly if its end is not known and its precision says
/// so, whatever is known of its beginning. (A property of the edge whose type itself has the IRI of
/// that mark could say it as well.)
pub proof fn fact_ended_on_an_unknown_day(
    names: Names,
    vocab: Vocabulary,
    f: ExportFact,
    now: DateTime,
)
    requires
        refusal(fact_steps(names, vocab, f, now)) is None,
        forall|i: int|
            0 <= i < f.qualifiers@.len() ==> vocab.relation_iri(
                (#[trigger] f.qualifiers@[i]).qualifier_type_id,
            ) != Some(utopia_iri("endedUnknown"@)),
    ensures
        emitted(fact_steps(names, vocab, f, now)).contains(
            says(names.fact_iri(f.id), utopia_iri("endedUnknown"@), flag_literal(true)),
        ) <==> f.valid_to is None && opt_text(f.valid_to_precision) == Some("unknown"@),
{
    let t = says(names.fact_iri(f.id), utopia_iri("endedUnknown"@), flag_literal(true));
    fact_says(names, vocab, f, now, t);
    lemma_word_lengths();
    terms_are_told_apart();
    lemma_entity_apart(names, f.subject_id, f.id);
}

/// A derived fact says that it ended on an unknown day exactly if its end is not known and its
/// precision says so, whatever is known of its beginning.
pub proof fn derived_fact_ended_on_an_unknown_day(
    names: Names,
    vocab: Vocabulary,
    d: ExportDerived,
)
    requires
        refusal(derived_steps(names, vocab, d)) is None,
    ensures
        emitted(derived_steps(names, vocab, d)).contains(
            says(names.derived_iri(d.id), utopia_iri("endedUnknown"@), flag_literal(true)),
        ) <==> d.valid_to is None && opt_text(d.valid_to_precision) == Some("unknown"@),
{
    let t = says(names.derived_iri(d.id), utopia_iri("endedUnknown"@), flag_literal(true));
    derived_says(names, vocab, d, t);
    lemma_word_lengths();
    terms_are_told_apart();
}

proof fn lemma_statement_words()
    ensures
        "object"@.len() == 6,
        "type"@.len() == 4,
        "subject"@.len() == 7,
        "predicate"@.len() == 9,
{
    reveal_strlit("object");
    reveal_strlit("type");
    reveal_strlit("subject");
    reveal_strlit("predicate");
}

/// A value that a rule concluded is the object of its statement, and the only one, as a literal of
/// the type that its relation declares: a number is a decimal, a date a date, a truth value a boolean,
/// and everything else a text. A value that is given only relative to something is a text in any case.
pub proof fn concluded_value_has_the_declared_type(
    names: Names,
    vocab: Vocabulary,
    d: ExportDerived,
    v: Json,
    o: TermView,
)
    requires
        refusal(derived_steps(names, vocab, d)) is None,
        d.object_id is None,
        d.object_value == Some(v),
    ensures
        emitted(derived_steps(names, vocab, d)).contains(
            states(names.derived_iri(d.id), rdf_iri("object"@), o),
        ) <==> o == TermView::Literal(
            typed(
                value_text(v@),
                if json_get(v@, "relative"@) == Some(JsonView::Bool(true)) {
                    "http://www.w3.org/2001/XMLSchema#string"@
                } else if vocab.datatype(d.predicate_id) == Some("number"@) {
                    "http://www.w3.org/2001/XMLSchema#decimal"@
                } else if vocab.datatype(d.predicate_id) == Some("date"@) {
                    "http://www.w3.org/2001/XMLSchema#date"@
                } else if vocab.datatype(d.predicate_id) == Some("bool"@) {
                    "http://www.w3.org/2001/XMLSchema#boolean"@
                } else {
                    "http://www.w3.org/2001/XMLSchema#string"@
                },
            ),
        ),
{
    derived_says(names, vocab, d, states(names.derived_iri(d.id), rdf_iri("object"@), o));
    lemma_statement_words();
    terms_are_told_apart();
}

/// A derived fact and an asserted one about the same relation with the same object or value have the
/// same `rdf:object`: whether it was read or concluded makes no difference to what is said. (A
/// property of the edge whose type itself has the IRI of `rdf:object` could say more.)
pub proof fn conclusions_and_assertions_have_the_same_objects(
    names: Names,
    vocab: Vocabulary,
    d: ExportDerived,
    f: ExportFact,
    now: DateTime,
    o: TermView,
)
    requires
        refusal(derived_steps(names, vocab, d)) is None,
        refusal(fact_steps(names, vocab, f, now)) is None,
        f.predicate_id == Some(d.predicate_id),
        f.object_id == d.object_id,
        f.object_value == d.object_value,
        forall|i: int|
            0 <= i < f.qualifiers@.len() ==> vocab.relation_iri(
                (#[trigger] f.qualifiers@[i]).qualifier_type_id,
            ) != Some(rdf_iri("object"@)),
    ensures
        emitted(derived_steps(names, vocab, d)).contains(
            states(names.derived_iri(d.id), rdf_iri("object"@), o),
        ) <==> emitted(fact_steps(names, vocab, f, now)).contains(
            states(names.fact_iri(f.id), rdf_iri("object"@), o),
        ),
{
    derived_says(names, vocab, d, states(names.derived_iri(d.id), rdf_iri("object"@), o));
    fact_says(names, vocab, f, now, states(names.fact_iri(f.id), rdf_iri("object"@), o));
    lemma_statement_words();
    terms_are_told_apart();
    lemma_entity_apart(names, f.subject_id, f.id);
}

} // verus!
