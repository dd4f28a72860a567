//! What holds of the triples of an export.
use crate::cells::{
    inside_if_steps, inside_steps, mark_steps, opt_instant_steps, opt_json_steps, opt_text_steps,
    relation_ref_steps, text_at, texts_steps,
};
use crate::emit_derived::{
    derived_barrier_steps, derived_object_steps, derived_steps, premise_at, premise_steps,
    premises_steps,
};
use crate::emit_fact::{
    document_link_at, document_links_steps, fact_barrier_steps, fact_claim_steps, fact_link_at,
    fact_links_steps, fact_object, fact_predicate, fact_record_steps, fact_steps,
    live_edge_steps, mention_at, mention_resolution_steps, mention_words_steps, mentions_steps,
    object_steps, open_steps, opt_fact_steps, predicate_steps, properties_steps, property_at,
    property_node, property_steps, property_value_steps, qualifier_at, qualifier_steps,
    qualifiers_steps, resolved_time_steps, unit_steps,
};
use crate::emit_validity::validity_steps;
use crate::json::Json;
use crate::laws_names::{rows_named_apart, RowName};
use crate::names::Names;
use crate::rows::{ExportDerived, ExportFact};
use crate::steps::{
    each, emitted, lemma_steps_concat, lit, nothing, one, refusal, res, stop_if, Step,
};
use crate::term::{
    prov_iri, rdf_iri, rdfs_iri, schema_iri, states, utopia_iri, LiteralView, SubjectView, TermView,
    TripleView,
};
use crate::text::opt_text;
use crate::time::DateTime;
use crate::uuid::Uuid;
use crate::vocabulary::Vocabulary;
use vstd::prelude::*;

verus! {

// ---- Steps with a property ----

/// Every triple of these steps has the property `p`.
#[verifier::opaque]
pub open spec fn all_have(steps: Seq<Step>, p: spec_fn(TripleView) -> bool) -> bool {
    forall|i: int| 0 <= i < steps.len() ==> (#[trigger] steps[i] matches Step::Emit(t) ==> p(t))
}

/// Every triple with this subject and predicate has the property `p`.
pub open spec fn fits(p: spec_fn(TripleView) -> bool, s: SubjectView, q: Seq<char>) -> bool {
    forall|o: TermView| #[trigger] p(TripleView { subject: s, predicate: q, object: o })
}

broadcast proof fn lemma_all_concat(a: Seq<Step>, b: Seq<Step>, p: spec_fn(TripleView) -> bool)
    requires
        all_have(a, p),
        all_have(b, p),
    ensures
        #[trigger] all_have(a + b, p),
{
    reveal(all_have);
}

broadcast proof fn lemma_all_one(t: TripleView, p: spec_fn(TripleView) -> bool)
    requires
        p(t),
    ensures
        #[trigger] all_have(one(t), p),
{
    reveal(all_have);
    reveal(one);
}

broadcast proof fn lemma_all_nothing(p: spec_fn(TripleView) -> bool)
    ensures
        #[trigger] all_have(nothing(), p),
{
    reveal(all_have);
}

broadcast proof fn lemma_all_stop(c: bool, message: Seq<char>, p: spec_fn(TripleView) -> bool)
    ensures
        #[trigger] all_have(stop_if(c, message), p),
{
    reveal(all_have);
    reveal(stop_if);
}

broadcast group group_all_have {
    lemma_all_concat,
    lemma_all_one,
    lemma_all_nothing,
    lemma_all_stop,
}

proof fn lemma_all_each(n: nat, f: spec_fn(int) -> Seq<Step>, p: spec_fn(TripleView) -> bool)
    requires
        forall|i: int| 0 <= i < n ==> all_have(#[trigger] f(i), p),
    ensures
        all_have(each(n, f), p),
    decreases n,
{
    broadcast use group_all_have;

    if n > 0 {
        lemma_all_each((n - 1) as nat, f, p);
        assert(all_have(f(n - 1), p));
    }
}

/// What is written is among the steps.
pub proof fn lemma_emitted_have(steps: Seq<Step>, p: spec_fn(TripleView) -> bool)
    requires
        all_have(steps, p),
    ensures
        forall|i: int| 0 <= i < emitted(steps).len() ==> p(#[trigger] emitted(steps)[i]),
    decreases steps.len(),
{
    reveal(all_have);
    reveal(emitted);
    reveal(refusal);
    if steps.len() > 0 {
        let before = steps.drop_last();
        assert forall|i: int| 0 <= i < before.len() implies (#[trigger] before[i] matches Step::Emit(t)
            ==> p(t)) by {
            assert(before[i] == steps[i]);
        }
        lemma_emitted_have(before, p);
        assert(steps.last() == steps[steps.len() - 1]);
        assert forall|i: int| 0 <= i < emitted(steps).len() implies p(#[trigger] emitted(steps)[i]) by {
            if i < emitted(before).len() {
                assert(p(emitted(before)[i]));
                assert(emitted(steps)[i] == emitted(before)[i]);
            }
        }
    }
}

// ---- Cells ----

proof fn lemma_all_cells(s: Seq<char>, p: spec_fn(TripleView) -> bool)
    ensures
        forall|q: Seq<char>, o: Option<String>|
            fits(p, SubjectView::Named(s), q) ==> all_have(#[trigger] opt_text_steps(s, q, o), p),
        forall|q: Seq<char>, o: Option<DateTime>|
            fits(p, SubjectView::Named(s), q) ==> all_have(#[trigger] opt_instant_steps(s, q, o), p),
        forall|q: Seq<char>, o: Option<Json>|
            fits(p, SubjectView::Named(s), q) ==> all_have(#[trigger] opt_json_steps(s, q, o), p),
        forall|q: Seq<char>, b: bool|
            fits(p, SubjectView::Named(s), q) ==> all_have(#[trigger] mark_steps(s, q, b), p),
        forall|q: Seq<char>, at: Option<DateTime>, precision: Option<Seq<char>>|
            fits(p, SubjectView::Named(s), q) ==> all_have(
                #[trigger] resolved_time_steps(s, q, at, precision),
                p,
            ),
        forall|vocab: Vocabulary, q: Seq<char>, id: Uuid, edge: Seq<char>|
            fits(p, SubjectView::Named(s), q) ==> all_have(
                #[trigger] relation_ref_steps(vocab, s, q, id, edge),
                p,
            ),
        forall|q: Seq<char>, o: TermView|
            fits(p, SubjectView::Named(s), q) ==> all_have(one(#[trigger] states(s, q, o)), p),
        forall|q: Seq<char>, o: Seq<char>|
            fits(p, SubjectView::Named(s), q) ==> all_have(#[trigger] res(s, q, o), p),
        forall|q: Seq<char>, o: LiteralView|
            fits(p, SubjectView::Named(s), q) ==> all_have(#[trigger] lit(s, q, o), p),
{
    broadcast use group_all_have;

    reveal(opt_text_steps);
    reveal(opt_instant_steps);
    reveal(opt_json_steps);
    reveal(mark_steps);
    reveal(resolved_time_steps);
    reveal(relation_ref_steps);
}

proof fn lemma_all_validity(
    s: Seq<char>,
    from: Option<DateTime>,
    fp: Option<Seq<char>>,
    to: Option<DateTime>,
    tp: Option<Seq<char>>,
    p: spec_fn(TripleView) -> bool,
)
    requires
        fits(p, SubjectView::Named(s), schema_iri("validFrom"@)),
        fits(p, SubjectView::Named(s), schema_iri("validThrough"@)),
        fits(p, SubjectView::Named(s), utopia_iri("validFromPrecision"@)),
        fits(p, SubjectView::Named(s), utopia_iri("validThroughPrecision"@)),
        fits(p, SubjectView::Named(s), utopia_iri("endedUnknown"@)),
    ensures
        all_have(validity_steps(s, from, fp, to, tp), p),
{
    broadcast use group_all_have;

    reveal(validity_steps);
    lemma_all_cells(s, p);
}

proof fn lemma_all_unit(s: Seq<char>, v: Option<Json>, p: spec_fn(TripleView) -> bool)
    requires
        fits(p, SubjectView::Named(s), utopia_iri("unit"@)),
    ensures
        all_have(unit_steps(s, v), p),
{
    broadcast use group_all_have;

    reveal(unit_steps);
    lemma_all_cells(s, p);
}

proof fn lemma_all_texts(
    s: Seq<char>,
    q: Seq<char>,
    texts: Seq<String>,
    p: spec_fn(TripleView) -> bool,
)
    requires
        fits(p, SubjectView::Named(s), q),
    ensures
        all_have(texts_steps(s, q, texts), p),
{
    broadcast use group_all_have;

    reveal(texts_steps);
    lemma_all_cells(s, p);
    lemma_all_each(texts.len(), text_at(s, q, texts), p);
}

proof fn lemma_all_inside(
    names: Names,
    id: Option<Uuid>,
    ref_kb: Option<Uuid>,
    edge: Seq<char>,
    p: spec_fn(TripleView) -> bool,
)
    ensures
        all_have(inside_steps(names, ref_kb, edge), p),
        all_have(inside_if_steps(names, id, ref_kb, edge), p),
{
    broadcast use group_all_have;

    reveal(inside_steps);
    reveal(inside_if_steps);
}

// ---- Facts ----

/// All of a fact but the edge itself.
pub open spec fn fact_statement_steps(names: Names, vocab: Vocabulary, f: ExportFact) -> Seq<Step> {
    let stmt = names.fact_iri(f.id);
    fact_barrier_steps(names, vocab, f) + fact_claim_steps(names, vocab, f) + fact_record_steps(
        names,
        f,
    ) + qualifiers_steps(names, vocab, stmt, f.qualifiers@) + properties_steps(
        names,
        stmt,
        f.statement_qualifiers@,
    ) + mentions_steps(names, stmt, f.time_mentions@)
}

/// The nodes that a fact's statement is made of: the statement itself, its time mentions, and the
/// blank nodes of its properties.
pub open spec fn statement_node(names: Names, f: ExportFact, s: SubjectView) -> bool {
    ||| s == SubjectView::Named(names.fact_iri(f.id))
    ||| exists|i: int|
        0 <= i < f.statement_qualifiers@.len() && s == SubjectView::Blank(
            property_node((#[trigger] f.statement_qualifiers@[i]).fact_id, i as nat),
        )
    ||| exists|i: int|
        0 <= i < f.time_mentions@.len() && s == SubjectView::Named(
            names.mention_iri((#[trigger] f.time_mentions@[i]).id),
        )
}

/// The relations of the vocabulary that a fact's statement uses: its own, and those of the
/// properties of the edge.
pub open spec fn vocabulary_predicate(vocab: Vocabulary, q: Seq<char>) -> bool {
    exists|id: Uuid| #[trigger] vocab.relation_iri(id) == Some(q)
}

/// A property that all triples of a fact's statement have: it holds of every triple whose subject
/// is a node of the statement and whose predicate is one of the export's own terms or a relation of
/// the vocabulary. `rdf:predicate` is needed only where the fact has a relation.
pub open spec fn fits_statement(
    p: spec_fn(TripleView) -> bool,
    names: Names,
    vocab: Vocabulary,
    f: ExportFact,
) -> bool {
    forall|s: SubjectView, q: Seq<char>|
        statement_node(names, f, s) && (own_term(q) || vocabulary_predicate(vocab, q) || (q
            == rdf_iri("predicate"@) && fact_predicate(vocab, f) is Some)) ==> #[trigger] fits(p, s, q)
}

/// A predicate that an export uses of itself, other than `rdf:predicate`.
pub open spec fn own_term(q: Seq<char>) -> bool {
    ||| q == rdf_iri("type"@)
    ||| q == rdf_iri("subject"@)
    ||| q == rdf_iri("object"@)
    ||| exists|term: Seq<char>| q == #[trigger] rdfs_iri(term)
    ||| exists|term: Seq<char>| q == #[trigger] utopia_iri(term)
    ||| exists|term: Seq<char>| q == #[trigger] prov_iri(term)
    ||| exists|term: Seq<char>| q == #[trigger] schema_iri(term)
}

proof fn lemma_own_terms()
    ensures
        own_term(rdf_iri("type"@)),
        own_term(rdf_iri("subject"@)),
        own_term(rdf_iri("object"@)),
        forall|term: Seq<char>| own_term(#[trigger] rdfs_iri(term)),
        forall|term: Seq<char>| own_term(#[trigger] utopia_iri(term)),
        forall|term: Seq<char>| own_term(#[trigger] prov_iri(term)),
        forall|term: Seq<char>| own_term(#[trigger] schema_iri(term)),
{
}

proof fn lemma_all_barrier(
    names: Names,
    vocab: Vocabulary,
    f: ExportFact,
    p: spec_fn(TripleView) -> bool,
)
    ensures
        all_have(fact_barrier_steps(names, vocab, f), p),
{
    broadcast use group_all_have;

    reveal(fact_barrier_steps);
    lemma_all_inside(names, None, f.subject_kb, "fact.subject"@, p);
    lemma_all_inside(names, f.object_id, f.object_kb, "fact.object"@, p);
    lemma_all_inside(names, f.predicate_id, f.predicate_kb, "fact.predicate"@, p);
    lemma_all_inside(names, f.supersedes, f.supersedes_kb, "fact.supersedes"@, p);
}

proof fn lemma_all_claim(
    names: Names,
    vocab: Vocabulary,
    f: ExportFact,
    p: spec_fn(TripleView) -> bool,
)
    requires
        fits_statement(p, names, vocab, f),
    ensures
        all_have(fact_claim_steps(names, vocab, f), p),
{
    broadcast use group_all_have;

    let stmt = names.fact_iri(f.id);
    let s = SubjectView::Named(stmt);
    lemma_own_terms();
    reveal(fact_claim_steps);
    reveal(open_steps);
    reveal(fact_links_steps);
    reveal(predicate_steps);
    reveal(object_steps);
    lemma_all_cells(stmt, p);
    assert(statement_node(names, f, s));
    assert(fits(p, s, rdf_iri("type"@)));
    assert(fits(p, s, rdf_iri("subject"@)));
    assert(fits(p, s, rdf_iri("object"@)));
    assert(fits(p, s, rdfs_iri("label"@)));
    assert(fits(p, s, utopia_iri("statementLayer"@)));
    assert(fits(p, s, utopia_iri("fromStatement"@)));
    assert(fits(p, s, utopia_iri("proposedPredicate"@)));
    assert(fits(p, s, utopia_iri("relativeValue"@)));
    assert(fits(p, s, utopia_iri("unit"@)));
    if fact_predicate(vocab, f) is Some {
        assert(fits(p, s, rdf_iri("predicate"@)));
    }
    lemma_all_unit(stmt, f.object_value, p);
    lemma_all_each(
        f.source_statements@.len(),
        fact_link_at(names, stmt, utopia_iri("fromStatement"@), f.source_statements@),
        p,
    );
}

proof fn lemma_all_record(
    names: Names,
    vocab: Vocabulary,
    f: ExportFact,
    p: spec_fn(TripleView) -> bool,
)
    requires
        fits_statement(p, names, vocab, f),
    ensures
        all_have(fact_record_steps(names, f), p),
{
    broadcast use group_all_have;

    let stmt = names.fact_iri(f.id);
    let s = SubjectView::Named(stmt);
    lemma_own_terms();
    reveal(fact_record_steps);
    reveal(opt_fact_steps);
    reveal(document_links_steps);
    lemma_all_cells(stmt, p);
    assert(statement_node(names, f, s));
    assert(fits(p, s, schema_iri("validFrom"@)));
    assert(fits(p, s, schema_iri("validThrough"@)));
    assert(fits(p, s, utopia_iri("validFromPrecision"@)));
    assert(fits(p, s, utopia_iri("validThroughPrecision"@)));
    assert(fits(p, s, utopia_iri("endedUnknown"@)));
    assert(fits(p, s, utopia_iri("validFromGrade"@)));
    assert(fits(p, s, utopia_iri("attestedFrom"@)));
    assert(fits(p, s, utopia_iri("attestedTo"@)));
    assert(fits(p, s, utopia_iri("endDerived"@)));
    assert(fits(p, s, utopia_iri("ruleDerived"@)));
    assert(fits(p, s, prov_iri("generatedAtTime"@)));
    assert(fits(p, s, prov_iri("invalidatedAtTime"@)));
    assert(fits(p, s, utopia_iri("confidence"@)));
    assert(fits(p, s, utopia_iri("supersedes"@)));
    assert(fits(p, s, prov_iri("wasDerivedFrom"@)));
    assert(fits(p, s, utopia_iri("quote"@)));
    assert(fits(p, s, utopia_iri("evidenceOrigin"@)));
    lemma_all_validity(
        stmt,
        f.valid_from,
        opt_text(f.valid_from_precision),
        f.valid_to,
        opt_text(f.valid_to_precision),
        p,
    );
    lemma_all_each(
        f.documents@.len(),
        document_link_at(names, stmt, prov_iri("wasDerivedFrom"@), f.documents@),
        p,
    );
    lemma_all_texts(stmt, utopia_iri("quote"@), f.quotes@, p);
    lemma_all_texts(stmt, utopia_iri("evidenceOrigin"@), f.quote_origins@, p);
}

proof fn lemma_all_qualifiers(
    names: Names,
    vocab: Vocabulary,
    f: ExportFact,
    p: spec_fn(TripleView) -> bool,
)
    requires
        fits_statement(p, names, vocab, f),
    ensures
        all_have(qualifiers_steps(names, vocab, names.fact_iri(f.id), f.qualifiers@), p),
{
    broadcast use group_all_have;

    let stmt = names.fact_iri(f.id);
    reveal(qualifiers_steps);
    reveal(qualifier_steps);
    lemma_all_cells(stmt, p);
    let qs = qualifier_at(names, vocab, stmt, f.qualifiers@);
    assert forall|i: int| 0 <= i < f.qualifiers@.len() implies all_have(#[trigger] qs(i), p) by {
        let id = f.qualifiers@[i].qualifier_type_id;
        assert(statement_node(names, f, SubjectView::Named(stmt)));
        if vocab.relation_iri(id) is Some {
            assert(vocabulary_predicate(vocab, vocab.relation_iri(id)->0));
            assert(fits(p, SubjectView::Named(stmt), vocab.relation_iri(id)->0));
        }
    }
    lemma_all_each(f.qualifiers@.len(), qs, p);
}

proof fn lemma_all_properties(
    names: Names,
    vocab: Vocabulary,
    f: ExportFact,
    p: spec_fn(TripleView) -> bool,
)
    requires
        fits_statement(p, names, vocab, f),
    ensures
        all_have(properties_steps(names, names.fact_iri(f.id), f.statement_qualifiers@), p),
{
    broadcast use group_all_have;

    let stmt = names.fact_iri(f.id);
    lemma_own_terms();
    reveal(properties_steps);
    reveal(property_steps);
    reveal(property_value_steps);
    lemma_all_cells(stmt, p);
    let ps = property_at(names, stmt, f.statement_qualifiers@);
    assert forall|i: int| 0 <= i < f.statement_qualifiers@.len() implies all_have(
        #[trigger] ps(i),
        p,
    ) by {
        let q = f.statement_qualifiers@[i];
        let node = SubjectView::Blank(property_node(q.fact_id, i as nat));
        lemma_all_inside(names, None, q.entity_kb, "squalifier.entity"@, p);
        assert(statement_node(names, f, SubjectView::Named(stmt)));
        assert(statement_node(names, f, node));
        assert(fits(p, SubjectView::Named(stmt), utopia_iri("statementQualifier"@)));
        assert(fits(p, node, rdf_iri("type"@)));
        assert(fits(p, node, utopia_iri("role"@)));
        assert(fits(p, node, utopia_iri("qualifierValue"@)));
        assert(fits(p, node, prov_iri("value"@)));
    }
    lemma_all_each(f.statement_qualifiers@.len(), ps, p);
}

proof fn lemma_all_mentions(
    names: Names,
    vocab: Vocabulary,
    f: ExportFact,
    p: spec_fn(TripleView) -> bool,
)
    requires
        fits_statement(p, names, vocab, f),
    ensures
        all_have(mentions_steps(names, names.fact_iri(f.id), f.time_mentions@), p),
{
    broadcast use group_all_have;

    let stmt = names.fact_iri(f.id);
    lemma_own_terms();
    reveal(mentions_steps);
    reveal(mention_words_steps);
    reveal(mention_resolution_steps);
    let ms = mention_at(names, stmt, f.time_mentions@);
    assert forall|i: int| 0 <= i < f.time_mentions@.len() implies all_have(#[trigger] ms(i), p) by {
        let m = f.time_mentions@[i];
        let node = SubjectView::Named(names.mention_iri(m.id));
        lemma_all_inside(names, None, m.chunk_kb, "timemention.chunk"@, p);
        lemma_all_cells(stmt, p);
        lemma_all_cells(names.mention_iri(m.id), p);
        assert(statement_node(names, f, SubjectView::Named(stmt)));
        assert(statement_node(names, f, node));
        assert(fits(p, SubjectView::Named(stmt), utopia_iri("timeMention"@)));
        assert(fits(p, node, rdf_iri("type"@)));
        assert(fits(p, node, utopia_iri("role"@)));
        assert(fits(p, node, utopia_iri("text"@)));
        assert(fits(p, node, utopia_iri("charStart"@)));
        assert(fits(p, node, utopia_iri("onChunk"@)));
        assert(fits(p, node, utopia_iri("shape"@)));
        assert(fits(p, node, utopia_iri("reference"@)));
        assert(fits(p, node, utopia_iri("granularity"@)));
        assert(fits(p, node, utopia_iri("grade"@)));
        assert(fits(p, node, utopia_iri("resolvedFrom"@)));
        assert(fits(p, node, utopia_iri("resolvedFromPrecision"@)));
        assert(fits(p, node, utopia_iri("resolvedTo"@)));
        assert(fits(p, node, utopia_iri("resolvedToPrecision"@)));
        assert(fits(p, node, utopia_iri("resolvedAt"@)));
        assert(fits(p, node, prov_iri("generatedAtTime"@)));
        assert(all_have(mention_words_steps(names, stmt, m), p));
        assert(all_have(mention_resolution_steps(names, m), p));
    }
    lemma_all_each(f.time_mentions@.len(), ms, p);
}

/// What fits the statement of a fact holds of all its triples but the edge.
pub proof fn lemma_all_statement(
    names: Names,
    vocab: Vocabulary,
    f: ExportFact,
    p: spec_fn(TripleView) -> bool,
)
    requires
        fits_statement(p, names, vocab, f),
    ensures
        all_have(fact_statement_steps(names, vocab, f), p),
{
    broadcast use group_all_have;

    lemma_all_barrier(names, vocab, f, p);
    lemma_all_claim(names, vocab, f, p);
    lemma_all_record(names, vocab, f, p);
    lemma_all_qualifiers(names, vocab, f, p);
    lemma_all_properties(names, vocab, f, p);
    lemma_all_mentions(names, vocab, f, p);
}

/// The triples about the nodes of a statement.
pub open spec fn about_statement(names: Names, f: ExportFact) -> spec_fn(TripleView) -> bool {
    |t: TripleView| statement_node(names, f, t.subject)
}

proof fn lemma_statement_about(names: Names, vocab: Vocabulary, f: ExportFact)
    ensures
        all_have(fact_statement_steps(names, vocab, f), about_statement(names, f)),
{
    let p = about_statement(names, f);
    assert(fits_statement(p, names, vocab, f));
    lemma_all_statement(names, vocab, f, p);
}

proof fn lemma_subject_is_no_entity(names: Names, f: ExportFact, s: SubjectView, x: Uuid)
    requires
        statement_node(names, f, s),
    ensures
        s != SubjectView::Named(names.entity_iri(x)),
{
    if s == SubjectView::Named(names.entity_iri(x)) {
        if s == SubjectView::Named(names.fact_iri(f.id)) {
            rows_named_apart(names, RowName::Entity(x), RowName::Fact(f.id));
        } else {
            let i = choose|i: int|
                0 <= i < f.time_mentions@.len() && s == SubjectView::Named(
                    names.mention_iri((#[trigger] f.time_mentions@[i]).id),
                );
            rows_named_apart(names, RowName::Entity(x), RowName::Mention(f.time_mentions@[i].id));
        }
    }
}

/// A fact that does not hold, because it ended, has not begun or was retracted, is a statement
/// only: each triple is about the statement or one of its own nodes, and none about an entity. A
/// reader who looks at entities alone never reads of it as if it held.
pub proof fn fact_that_does_not_hold_is_a_statement_only(
    names: Names,
    vocab: Vocabulary,
    f: ExportFact,
    now: DateTime,
    i: int,
    x: Uuid,
)
    requires
        !(f.invalidated_at is None && (f.holds_from matches Some(a) && (a.seconds() < now.seconds() || (
        a.seconds() == now.seconds() && a.subsecond() <= now.subsecond()))) && (
        f.holds_to matches Some(b) ==> now.seconds() < b.seconds() || (now.seconds() == b.seconds()
            && now.subsecond() < b.subsecond()))),
        0 <= i < emitted(fact_steps(names, vocab, f, now)).len(),
    ensures
        statement_node(names, f, emitted(fact_steps(names, vocab, f, now))[i].subject),
        emitted(fact_steps(names, vocab, f, now))[i].subject != SubjectView::Named(
            names.entity_iri(x),
        ),
{
    let p = about_statement(names, f);
    reveal(live_edge_steps);
    lemma_statement_about(names, vocab, f);
    lemma_all_nothing(p);
    lemma_all_concat(
        fact_statement_steps(names, vocab, f),
        live_edge_steps(names, vocab, f, now),
        p,
    );
    lemma_emitted_have(fact_steps(names, vocab, f, now), p);
    lemma_subject_is_no_entity(
        names,
        f,
        emitted(fact_steps(names, vocab, f, now))[i].subject,
        x,
    );
}

/// A fact that holds, and that has a relation and an object, is both a statement and an edge: the
/// edge is the last triple, and the only one about an entity.
pub proof fn fact_that_holds_writes_its_edge(
    names: Names,
    vocab: Vocabulary,
    f: ExportFact,
    now: DateTime,
)
    requires
        f.invalidated_at is None,
        f.holds_from matches Some(a) && (a.seconds() < now.seconds() || (a.seconds()
            == now.seconds() && a.subsecond() <= now.subsecond())),
        f.holds_to matches Some(b) ==> now.seconds() < b.seconds() || (now.seconds() == b.seconds()
            && now.subsecond() < b.subsecond()),
        fact_predicate(vocab, f) is Some,
        fact_object(names, vocab, f) is Some,
        refusal(fact_steps(names, vocab, f, now)) is None,
    ensures
        ({
            let written = emitted(fact_steps(names, vocab, f, now));
            let edge = states(
                names.entity_iri(f.subject_id),
                fact_predicate(vocab, f)->0,
                fact_object(names, vocab, f)->0,
            );
            &&& written.len() > 0
            &&& written.last() == edge
            &&& forall|i: int|
                0 <= i < written.len() - 1 ==> statement_node(
                    names,
                    f,
                    (#[trigger] written[i]).subject,
                )
            &&& forall|i: int, x: Uuid|
                0 <= i < written.len() - 1 ==> (#[trigger] written[i]).subject
                    != SubjectView::Named(#[trigger] names.entity_iri(x))
        }),
{
    let p = about_statement(names, f);
    let a = fact_statement_steps(names, vocab, f);
    let b = live_edge_steps(names, vocab, f, now);
    reveal(live_edge_steps);
    let edge = states(
        names.entity_iri(f.subject_id),
        fact_predicate(vocab, f)->0,
        fact_object(names, vocab, f)->0,
    );
    assert(b == one(edge));
    assert(fact_steps(names, vocab, f, now) == a + b);
    lemma_steps_concat(a, b);
    lemma_emitted_one(edge);
    assert(emitted(a) + seq![edge] =~= emitted(a).push(edge));
    lemma_statement_about(names, vocab, f);
    lemma_emitted_have(a, p);
    let written = emitted(a + b);
    assert forall|i: int| 0 <= i < written.len() - 1 implies statement_node(
        names,
        f,
        (#[trigger] written[i]).subject,
    ) by {
        assert(written[i] == emitted(a)[i]);
    }
    assert forall|i: int, x: Uuid| 0 <= i < written.len() - 1 implies (#[trigger] written[i]).subject
        != SubjectView::Named(#[trigger] names.entity_iri(x)) by {
        assert(written[i] == emitted(a)[i]);
        lemma_subject_is_no_entity(names, f, written[i].subject, x);
    }
}

proof fn lemma_emitted_one(t: TripleView)
    ensures
        emitted(one(t)) == seq![t],
{
    reveal(one);
    reveal_with_fuel(emitted, 2);
    reveal_with_fuel(refusal, 2);
    assert(one(t).drop_last() =~= Seq::<Step>::empty());
    assert(emitted(one(t)) =~= seq![t]);
}

// ---- Derived facts ----

/// The nodes that a derived fact is made of: the statement itself and the nodes of its premises.
pub open spec fn derived_node(names: Names, d: ExportDerived, s: SubjectView) -> bool {
    ||| s == SubjectView::Named(names.derived_iri(d.id))
    ||| exists|i: int|
        0 <= i < d.premises@.len() && s == SubjectView::Named(
            names.premise_iri(d.id, (#[trigger] d.premises@[i]).seq),
        )
}

/// The triples about the nodes of a derived fact.
pub open spec fn about_derived(names: Names, d: ExportDerived) -> spec_fn(TripleView) -> bool {
    |t: TripleView| derived_node(names, d, t.subject)
}

/// A derived fact is a statement only, whether it holds or not: each triple is about the statement
/// or the node of one of its own premises, and none about an entity, so that nobody takes a
/// conclusion for the words of a document.
pub proof fn derived_fact_is_a_statement_only(
    names: Names,
    vocab: Vocabulary,
    d: ExportDerived,
    i: int,
    x: Uuid,
)
    requires
        0 <= i < emitted(derived_steps(names, vocab, d)).len(),
    ensures
        derived_node(names, d, emitted(derived_steps(names, vocab, d))[i].subject),
        emitted(derived_steps(names, vocab, d))[i].subject != SubjectView::Named(
            names.entity_iri(x),
        ),
{
    let p = about_derived(names, d);
    lemma_derived_about(names, vocab, d);
    lemma_emitted_have(derived_steps(names, vocab, d), p);
    let s = emitted(derived_steps(names, vocab, d))[i].subject;
    if s == SubjectView::Named(names.entity_iri(x)) {
        if s == SubjectView::Named(names.derived_iri(d.id)) {
            rows_named_apart(names, RowName::Entity(x), RowName::Derived(d.id));
        } else {
            let k = choose|k: int|
                0 <= k < d.premises@.len() && s == SubjectView::Named(
                    names.premise_iri(d.id, (#[trigger] d.premises@[k]).seq),
                );
            rows_named_apart(
                names,
                RowName::Entity(x),
                RowName::Premise(d.id, d.premises@[k].seq),
            );
        }
    }
}

proof fn lemma_derived_about(names: Names, vocab: Vocabulary, d: ExportDerived)
    ensures
        all_have(derived_steps(names, vocab, d), about_derived(names, d)),
{
    broadcast use group_all_have;

    let p = about_derived(names, d);
    let stmt = names.derived_iri(d.id);
    reveal(derived_barrier_steps);
    reveal(derived_object_steps);
    reveal(premises_steps);
    reveal(premise_steps);
    assert forall|q: Seq<char>| #[trigger] fits(p, SubjectView::Named(stmt), q) by {}
    lemma_all_cells(stmt, p);
    lemma_all_unit(stmt, d.object_value, p);
    lemma_all_validity(
        stmt,
        d.valid_from,
        opt_text(d.valid_from_precision),
        d.valid_to,
        opt_text(d.valid_to_precision),
        p,
    );
    lemma_all_inside(names, None, d.subject_kb, "derived.subject"@, p);
    lemma_all_inside(names, d.object_id, d.object_kb, "derived.object"@, p);
    lemma_all_inside(names, None, d.predicate_kb, "derived.predicate"@, p);
    lemma_all_inside(names, d.rule_id, d.rule_kb, "derived.rule"@, p);
    lemma_all_inside(
        names,
        d.attribute_rule_id,
        d.attribute_rule_kb,
        "derived.attribute_rule"@,
        p,
    );
    assert(all_have(derived_barrier_steps(names, d), p));
    let ps = premise_at(names, stmt, d.id, d.premises@);
    assert forall|i: int| 0 <= i < d.premises@.len() implies all_have(#[trigger] ps(i), p) by {
        let node = names.premise_iri(d.id, d.premises@[i].seq);
        assert(derived_node(names, d, SubjectView::Named(node)));
        assert forall|q: Seq<char>| #[trigger] fits(p, SubjectView::Named(node), q) by {}
        lemma_all_cells(node, p);
    }
    lemma_all_each(d.premises@.len(), ps, p);
}

} // verus!
