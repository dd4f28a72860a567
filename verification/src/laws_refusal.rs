//! What holds of refusals: a bad reference is never written and never left out.
use crate::cells::{
    class_ref_at, class_ref_steps, class_refs_steps, inside_if_steps, inside_steps, relation_ref_at,
    relation_ref_steps, relation_refs_steps,
};
use crate::emit_derived::{derived_barrier_steps, derived_steps};
use crate::emit_fact::{fact_barrier_steps, fact_predicate, fact_steps, live_edge_steps};
use crate::emit_ontology::rule_steps;
use crate::emit_rules::{attribute_rule_steps, read_at, reads_steps};
use crate::emit_sources::{chunk_steps, docversion_steps, evidence_steps};
use crate::expr::expr_ids;
use crate::json::JsonView;
use crate::laws_emit::{
    all_have, fact_statement_steps, fits, lemma_all_statement, lemma_emitted_have, own_term,
    statement_node, vocabulary_predicate,
};
use crate::names::Names;
use crate::rows::{
    ExportAttributeRule, ExportChunk, ExportDerived, ExportDocumentVersion, ExportEvidence,
    ExportFact, ExportRule,
};
use crate::sink::Sink;
use crate::steps::{
    each, emitted, group_steps, lemma_steps_concat, nothing, one, refusal, stop_if, took, Refused,
    Step,
};
use crate::term::{
    link, prov_iri, rdf_iri, rdfs_iri, schema_iri, utopia_iri, SubjectView, TripleView, PROV, RDF,
    RDFS, SCHEMA, UTOPIA,
};
use crate::time::DateTime;
use crate::uuid::Uuid;
use crate::vocabulary::Vocabulary;
use vstd::prelude::*;

verus! {

// ---- Both formats ----

/// Turtle and JSON-LD carry the same triples: what an emitter writes does not depend on the format
/// of its sink.
pub proof fn formats_carry_the_same_triples(
    before1: Sink,
    now1: Sink,
    result1: Result<(), Refused>,
    before2: Sink,
    now2: Sink,
    result2: Result<(), Refused>,
    steps: Seq<Step>,
)
    requires
        before1.triples() == before2.triples(),
        took(before1, now1, result1, steps),
        took(before2, now2, result2, steps),
    ensures
        now1.triples() == now2.triples(),
        result1 is Ok == result2 is Ok,
        result1 is Err ==> result1->Err_0.message@ == result2->Err_0.message@,
{
}

// ---- No relation is made up ----

proof fn lemma_own_terms_apart(q: Seq<char>)
    requires
        own_term(q),
    ensures
        q != rdf_iri("predicate"@),
{
    reveal_strlit("http://www.w3.org/1999/02/22-rdf-syntax-ns#");
    reveal_strlit("http://www.w3.org/2000/01/rdf-schema#");
    reveal_strlit("http://www.w3.org/ns/prov#");
    reveal_strlit("https://schema.org/");
    reveal_strlit("urn:utopia:ns:");
    reveal_strlit("predicate");
    reveal_strlit("type");
    reveal_strlit("subject");
    reveal_strlit("object");
    let r = rdf_iri("predicate"@);
    if q == r {
        assert(r.len() == 52);
        assert(r[0] == RDF@[0]);
        assert(r[4] == RDF@[4]);
        assert(r[18] == RDF@[18]);
        if exists|term: Seq<char>| q == #[trigger] rdfs_iri(term) {
            let term = choose|term: Seq<char>| q == #[trigger] rdfs_iri(term);
            assert(rdfs_iri(term)[18] == RDFS@[18]);
        } else if exists|term: Seq<char>| q == #[trigger] utopia_iri(term) {
            let term = choose|term: Seq<char>| q == #[trigger] utopia_iri(term);
            assert(utopia_iri(term)[0] == UTOPIA@[0]);
        } else if exists|term: Seq<char>| q == #[trigger] prov_iri(term) {
            let term = choose|term: Seq<char>| q == #[trigger] prov_iri(term);
            assert(prov_iri(term)[18] == PROV@[18]);
        } else if exists|term: Seq<char>| q == #[trigger] schema_iri(term) {
            let term = choose|term: Seq<char>| q == #[trigger] schema_iri(term);
            assert(schema_iri(term)[4] == SCHEMA@[4]);
        }
    }
}

/// A fact that the ontology has no relation for gets none: no triple of it says `rdf:predicate`.
/// (A vocabulary that itself has a relation with the IRI of `rdf:predicate` could be used as a
/// property of the edge.)
pub proof fn no_relation_is_made_up(
    names: Names,
    vocab: Vocabulary,
    f: ExportFact,
    now: DateTime,
    i: int,
)
    requires
        f.predicate_id is None,
        !vocabulary_predicate(vocab, rdf_iri("predicate"@)),
        0 <= i < emitted(fact_steps(names, vocab, f, now)).len(),
    ensures
        emitted(fact_steps(names, vocab, f, now))[i].predicate != rdf_iri("predicate"@),
{
    let p = |t: TripleView| t.predicate != rdf_iri("predicate"@);
    assert forall|s: SubjectView, q: Seq<char>|
        statement_node(names, f, s) && (own_term(q) || vocabulary_predicate(vocab, q) || (q
            == rdf_iri("predicate"@) && fact_predicate(vocab, f) is Some)) implies #[trigger] fits(
        p,
        s,
        q,
    ) by {
        if own_term(q) {
            lemma_own_terms_apart(q);
        }
    }
    lemma_all_statement(names, vocab, f, p);
    reveal(live_edge_steps);
    reveal(all_have);
    assert(fact_steps(names, vocab, f, now) =~= fact_statement_steps(names, vocab, f));
    lemma_emitted_have(fact_steps(names, vocab, f, now), p);
}

// ---- Refused rows ----

pub broadcast proof fn lemma_emitted_concat(a: Seq<Step>, b: Seq<Step>)
    ensures
        #[trigger] emitted(a + b) == (if refusal(a) is Some {
            emitted(a)
        } else {
            emitted(a) + emitted(b)
        }),
{
    lemma_steps_concat(a, b);
}

pub broadcast proof fn lemma_stop_silent(c: bool, message: Seq<char>)
    ensures
        #[trigger] emitted(stop_if(c, message)) == Seq::<TripleView>::empty(),
{
    reveal(stop_if);
    reveal_with_fuel(emitted, 2);
    reveal_with_fuel(refusal, 2);
    assert(stop_if(true, message).drop_last() =~= Seq::<Step>::empty());
}

pub broadcast proof fn lemma_stop_refuses(c: bool, message: Seq<char>)
    ensures
        #[trigger] refusal(stop_if(c, message)) == (if c {
            Some(message)
        } else {
            None
        }),
{
    reveal(stop_if);
    reveal_with_fuel(refusal, 2);
    assert(stop_if(true, message).drop_last() =~= Seq::<Step>::empty());
}

pub broadcast proof fn lemma_inside_silent(names: Names, ref_kb: Option<Uuid>, edge: Seq<char>)
    ensures
        #[trigger] emitted(inside_steps(names, ref_kb, edge)) == Seq::<TripleView>::empty(),
{
    reveal(inside_steps);
    lemma_stop_silent(ref_kb != Some(names.kb()), crate::cells::outside_message(edge));
}

pub broadcast proof fn lemma_inside_refuses(names: Names, ref_kb: Option<Uuid>, edge: Seq<char>)
    ensures
        (#[trigger] refusal(inside_steps(names, ref_kb, edge))) is None == (ref_kb == Some(
            names.kb(),
        )),
{
    reveal(inside_steps);
    lemma_stop_refuses(ref_kb != Some(names.kb()), crate::cells::outside_message(edge));
}

pub broadcast proof fn lemma_inside_if_silent(
    names: Names,
    id: Option<Uuid>,
    ref_kb: Option<Uuid>,
    edge: Seq<char>,
)
    ensures
        #[trigger] emitted(inside_if_steps(names, id, ref_kb, edge)) == Seq::<TripleView>::empty(),
{
    reveal(inside_if_steps);
    reveal(emitted);
    lemma_inside_silent(names, ref_kb, edge);
}

pub broadcast proof fn lemma_inside_if_refuses(
    names: Names,
    id: Option<Uuid>,
    ref_kb: Option<Uuid>,
    edge: Seq<char>,
)
    ensures
        (#[trigger] refusal(inside_if_steps(names, id, ref_kb, edge))) is None == (id is Some
            ==> ref_kb == Some(names.kb())),
{
    reveal(inside_if_steps);
    reveal(refusal);
    lemma_inside_refuses(names, ref_kb, edge);
}

pub broadcast group group_refusals {
    lemma_emitted_concat,
    lemma_stop_silent,
    lemma_stop_refuses,
    lemma_inside_silent,
    lemma_inside_refuses,
    lemma_inside_if_silent,
    lemma_inside_if_refuses,
    crate::steps::lemma_refusal_concat,
}

/// A reference that a row may do without stays inside the knowledge base.
pub open spec fn stays(names: Names, id: Option<Uuid>, ref_kb: Option<Uuid>) -> bool {
    id is Some ==> ref_kb == Some(names.kb())
}

/// A fact that no barrier stops: all its references stay inside the knowledge base, point at rows
/// that are exported, and its relation is known.
pub open spec fn fact_admitted(names: Names, vocab: Vocabulary, f: ExportFact) -> bool {
    &&& f.subject_kb == Some(names.kb())
    &&& stays(names, f.object_id, f.object_kb)
    &&& stays(names, f.predicate_id, f.predicate_kb)
    &&& stays(names, f.supersedes, f.supersedes_kb)
    &&& !f.subject_merged
    &&& !f.object_merged
    &&& !f.foreign_document
    &&& !f.foreign_source
    &&& (f.predicate_id is Some ==> fact_predicate(vocab, f) is Some)
}

/// The barriers in front of a fact stop it exactly if it is not admitted, and write nothing.
pub proof fn fact_barriers(names: Names, vocab: Vocabulary, f: ExportFact)
    ensures
        refusal(fact_barrier_steps(names, vocab, f)) is None <==> fact_admitted(names, vocab, f),
        emitted(fact_barrier_steps(names, vocab, f)) == Seq::<TripleView>::empty(),
{
    broadcast use group_refusals;

    reveal(fact_barrier_steps);
    assert(emitted(fact_barrier_steps(names, vocab, f)) =~= Seq::<TripleView>::empty());
}

/// A fact with a reference that leaves the knowledge base, or that points at a merged entity, or
/// whose relation is unknown, is refused, and nothing of it is written.
pub proof fn refused_fact_leaves_no_trace(
    names: Names,
    vocab: Vocabulary,
    f: ExportFact,
    now: DateTime,
)
    requires
        !fact_admitted(names, vocab, f),
    ensures
        refusal(fact_steps(names, vocab, f, now)) is Some,
        emitted(fact_steps(names, vocab, f, now)) == Seq::<TripleView>::empty(),
{
    broadcast use group_refusals;

    fact_barriers(names, vocab, f);
}

/// A derived fact that no barrier stops.
pub open spec fn derived_admitted(names: Names, d: ExportDerived) -> bool {
    &&& d.subject_kb == Some(names.kb())
    &&& stays(names, d.object_id, d.object_kb)
    &&& d.predicate_kb == Some(names.kb())
    &&& stays(names, d.rule_id, d.rule_kb)
    &&& stays(names, d.attribute_rule_id, d.attribute_rule_kb)
    &&& !d.subject_merged
    &&& !d.object_merged
    &&& !d.foreign_fact_premise
    &&& !d.foreign_derived_premise
    &&& (d.rule_id is Some || d.attribute_rule_id is Some)
}

/// The barriers in front of a derived fact stop it exactly if it is not admitted, and write nothing.
pub proof fn derived_barriers(names: Names, d: ExportDerived)
    ensures
        refusal(derived_barrier_steps(names, d)) is None <==> derived_admitted(names, d),
        emitted(derived_barrier_steps(names, d)) == Seq::<TripleView>::empty(),
{
    broadcast use group_refusals;

    reveal(derived_barrier_steps);
    assert(emitted(derived_barrier_steps(names, d)) =~= Seq::<TripleView>::empty());
}

/// A derived fact with a reference that leaves the knowledge base, or that points at a merged
/// entity, or without a rule, is refused, and nothing of it is written.
pub proof fn refused_derived_fact_leaves_no_trace(names: Names, vocab: Vocabulary, d: ExportDerived)
    requires
        !derived_admitted(names, d),
    ensures
        refusal(derived_steps(names, vocab, d)) is Some,
        emitted(derived_steps(names, vocab, d)) == Seq::<TripleView>::empty(),
{
    broadcast use group_refusals;

    derived_barriers(names, d);
}

/// An axiom about a relation of another knowledge base is refused, and nothing of it is written.
pub proof fn foreign_rule_leaves_no_trace(names: Names, vocab: Vocabulary, r: ExportRule)
    requires
        r.predicate_kb != Some(names.kb()),
    ensures
        refusal(rule_steps(names, vocab, r)) is Some,
        emitted(rule_steps(names, vocab, r)) == Seq::<TripleView>::empty(),
{
    broadcast use group_refusals;

}

/// A business rule whose own references leave the knowledge base is refused, and nothing of it is
/// written.
pub proof fn foreign_attribute_rule_leaves_no_trace(
    names: Names,
    vocab: Vocabulary,
    r: ExportAttributeRule,
)
    requires
        !(r.subject_type_kb == Some(names.kb()) && stays(
            names,
            r.conclude_type_id,
            r.conclude_type_kb,
        ) && stays(names, r.conclude_predicate_id, r.conclude_predicate_kb)),
    ensures
        refusal(attribute_rule_steps(names, vocab, r)) is Some,
        emitted(attribute_rule_steps(names, vocab, r)) == Seq::<TripleView>::empty(),
{
    broadcast use group_refusals;

    assert(emitted(attribute_rule_steps(names, vocab, r)) =~= Seq::<TripleView>::empty());
}

/// A passage of a document of another knowledge base is refused, and nothing of it is written.
pub proof fn foreign_chunk_leaves_no_trace(names: Names, c: ExportChunk)
    requires
        c.document_kb != Some(names.kb()),
    ensures
        refusal(chunk_steps(names, c)) is Some,
        emitted(chunk_steps(names, c)) == Seq::<TripleView>::empty(),
{
    broadcast use group_refusals;

}

/// A version of a document of another knowledge base is refused, and nothing of it is written.
pub proof fn foreign_docversion_leaves_no_trace(names: Names, v: ExportDocumentVersion)
    requires
        v.document_kb != Some(names.kb()),
    ensures
        refusal(docversion_steps(names, v)) is Some,
        emitted(docversion_steps(names, v)) == Seq::<TripleView>::empty(),
{
    broadcast use group_refusals;

}

/// Evidence from a passage or a document of another knowledge base is refused, and nothing of it is
/// written.
pub proof fn foreign_evidence_leaves_no_trace(names: Names, e: ExportEvidence)
    requires
        !(e.chunk_kb == Some(names.kb()) && stays(names, e.document_id, e.document_kb)),
    ensures
        refusal(evidence_steps(names, e)) is Some,
        emitted(evidence_steps(names, e)) == Seq::<TripleView>::empty(),
{
    broadcast use group_refusals;

    assert(emitted(evidence_steps(names, e)) =~= Seq::<TripleView>::empty());
}

// ---- References into the vocabulary ----

proof fn lemma_emitted_link(s: Seq<char>, p: Seq<char>, o: Seq<char>)
    ensures
        emitted(one(link(s, p, o))) == seq![link(s, p, o)],
        refusal(one(link(s, p, o))) is None,
{
    reveal(one);
    reveal_with_fuel(emitted, 2);
    reveal_with_fuel(refusal, 2);
    assert(one(link(s, p, o)).drop_last() =~= Seq::<Step>::empty());
    assert(emitted(one(link(s, p, o))) =~= seq![link(s, p, o)]);
}

proof fn lemma_class_refs(
    vocab: Vocabulary,
    s: Seq<char>,
    p: Seq<char>,
    ids: Seq<Uuid>,
    edge: Seq<char>,
    n: nat,
)
    requires
        n <= ids.len(),
    ensures
        refusal(each(n, class_ref_at(vocab, s, p, ids, edge))) is None <==> (forall|i: int|
            0 <= i < n ==> vocab.class_iri(#[trigger] ids[i]) is Some),
        refusal(each(n, class_ref_at(vocab, s, p, ids, edge))) is None ==> emitted(
            each(n, class_ref_at(vocab, s, p, ids, edge)),
        ) == Seq::new(n, |i: int| link(s, p, vocab.class_iri(ids[i])->0)),
    decreases n,
{
    broadcast use {group_steps, group_refusals};

    let f = class_ref_at(vocab, s, p, ids, edge);
    let want = |k: nat| Seq::new(k, |i: int| link(s, p, vocab.class_iri(ids[i])->0));
    reveal(emitted);
    if n > 0 {
        lemma_class_refs(vocab, s, p, ids, edge, (n - 1) as nat);
        reveal(class_ref_steps);
        assert(each(n, f) == each((n - 1) as nat, f) + f(n - 1));
        if vocab.class_iri(ids[n - 1]) is Some {
            lemma_emitted_link(s, p, vocab.class_iri(ids[n - 1])->0);
        }
        if refusal(each(n, f)) is None {
            assert(emitted(each(n, f)) =~= Seq::new(
                n,
                |i: int| link(s, p, vocab.class_iri(ids[i])->0),
            ));
        }
    } else {
        assert(emitted(each(0, f)) =~= Seq::new(
            0,
            |i: int| link(s, p, vocab.class_iri(ids[i])->0),
        ));
    }
}

/// References to classes all arrive, in order, or the row is refused: none is left out.
pub proof fn class_references_all_arrive(
    vocab: Vocabulary,
    s: Seq<char>,
    p: Seq<char>,
    ids: Seq<Uuid>,
    edge: Seq<char>,
)
    ensures
        refusal(class_refs_steps(vocab, s, p, ids, edge)) is None <==> (forall|i: int|
            0 <= i < ids.len() ==> vocab.class_iri(#[trigger] ids[i]) is Some),
        refusal(class_refs_steps(vocab, s, p, ids, edge)) is None ==> emitted(
            class_refs_steps(vocab, s, p, ids, edge),
        ) == Seq::new(ids.len(), |i: int| link(s, p, vocab.class_iri(ids[i])->0)),
{
    reveal(class_refs_steps);
    lemma_class_refs(vocab, s, p, ids, edge, ids.len());
}

proof fn lemma_relation_refs(
    vocab: Vocabulary,
    s: Seq<char>,
    p: Seq<char>,
    ids: Seq<Uuid>,
    edge: Seq<char>,
    n: nat,
)
    requires
        n <= ids.len(),
    ensures
        refusal(each(n, relation_ref_at(vocab, s, p, ids, edge))) is None <==> (forall|i: int|
            0 <= i < n ==> vocab.relation_iri(#[trigger] ids[i]) is Some),
        refusal(each(n, relation_ref_at(vocab, s, p, ids, edge))) is None ==> emitted(
            each(n, relation_ref_at(vocab, s, p, ids, edge)),
        ) == Seq::new(n, |i: int| link(s, p, vocab.relation_iri(ids[i])->0)),
    decreases n,
{
    broadcast use {group_steps, group_refusals};

    let f = relation_ref_at(vocab, s, p, ids, edge);
    reveal(emitted);
    if n > 0 {
        lemma_relation_refs(vocab, s, p, ids, edge, (n - 1) as nat);
        reveal(relation_ref_steps);
        assert(each(n, f) == each((n - 1) as nat, f) + f(n - 1));
        if vocab.relation_iri(ids[n - 1]) is Some {
            lemma_emitted_link(s, p, vocab.relation_iri(ids[n - 1])->0);
        }
        if refusal(each(n, f)) is None {
            assert(emitted(each(n, f)) =~= Seq::new(
                n,
                |i: int| link(s, p, vocab.relation_iri(ids[i])->0),
            ));
        }
    } else {
        assert(emitted(each(0, f)) =~= Seq::new(
            0,
            |i: int| link(s, p, vocab.relation_iri(ids[i])->0),
        ));
    }
}

/// References to relations all arrive, in order, or the row is refused: none is left out.
pub proof fn relation_references_all_arrive(
    vocab: Vocabulary,
    s: Seq<char>,
    p: Seq<char>,
    ids: Seq<Uuid>,
    edge: Seq<char>,
)
    ensures
        refusal(relation_refs_steps(vocab, s, p, ids, edge)) is None <==> (forall|i: int|
            0 <= i < ids.len() ==> vocab.relation_iri(#[trigger] ids[i]) is Some),
        refusal(relation_refs_steps(vocab, s, p, ids, edge)) is None ==> emitted(
            relation_refs_steps(vocab, s, p, ids, edge),
        ) == Seq::new(ids.len(), |i: int| link(s, p, vocab.relation_iri(ids[i])->0)),
{
    reveal(relation_refs_steps);
    lemma_relation_refs(vocab, s, p, ids, edge, ids.len());
}

// ---- Formulas ----

/// A formula reads a relation that the vocabulary knows.
pub open spec fn readable(vocab: Vocabulary, id: Option<Uuid>) -> bool {
    id matches Some(u) && vocab.relation_iri(u) is Some
}

proof fn lemma_reads(
    vocab: Vocabulary,
    node: Seq<char>,
    ids: Seq<Option<Uuid>>,
    edge: Seq<char>,
    n: nat,
)
    requires
        n <= ids.len(),
    ensures
        refusal(each(n, read_at(vocab, node, ids, edge))) is None <==> (forall|i: int|
            0 <= i < n ==> readable(vocab, #[trigger] ids[i])),
        refusal(each(n, read_at(vocab, node, ids, edge))) is None ==> (forall|i: int|
            0 <= i < n ==> emitted(each(n, read_at(vocab, node, ids, edge))).contains(
                link(
                    node,
                    utopia_iri("readsPredicate"@),
                    vocab.relation_iri((#[trigger] ids[i])->0)->0,
                ),
            )),
    decreases n,
{
    broadcast use {group_steps, group_refusals};

    let f = read_at(vocab, node, ids, edge);
    let p = utopia_iri("readsPredicate"@);
    if n > 0 {
        let k = (n - 1) as nat;
        lemma_reads(vocab, node, ids, edge, k);
        reveal(relation_ref_steps);
        assert(each(n, f) == each(k, f) + f(k as int));
        let seen = ids.take(k as int).contains(ids[k as int]);
        if seen {
            let j = choose|j: int| 0 <= j < k && ids.take(k as int)[j] == ids[k as int];
            assert(ids[j] == ids[k as int]);
            assert(f(k as int) == nothing());
            reveal(emitted);
            assert(emitted(nothing()) =~= Seq::<TripleView>::empty());
            assert(emitted(each(k, f)) + emitted(nothing()) =~= emitted(each(k, f)));
        } else if readable(vocab, ids[k as int]) {
            let iri = vocab.relation_iri(ids[k as int]->0)->0;
            lemma_emitted_link(node, p, iri);
            let before = emitted(each(k, f));
            let now = before + seq![link(node, p, iri)];
            if refusal(each(n, f)) is None {
                assert(emitted(each(n, f)) == now);
                assert(now[before.len() as int] == link(node, p, iri));
                assert forall|i: int| 0 <= i < n implies now.contains(
                    link(node, p, vocab.relation_iri((#[trigger] ids[i])->0)->0),
                ) by {
                    if i < k {
                        let t = link(node, p, vocab.relation_iri(ids[i]->0)->0);
                        assert(before.contains(t));
                        let j = choose|j: int| 0 <= j < before.len() && before[j] == t;
                        assert(now[j] == t);
                    }
                }
            }
        }
        if refusal(each(n, f)) is None {
            assert forall|i: int| 0 <= i < n implies readable(vocab, #[trigger] ids[i]) by {
                if i == k && seen {
                    let j = choose|j: int| 0 <= j < k && ids.take(k as int)[j] == ids[k as int];
                    assert(ids[j] == ids[k as int]);
                    assert(readable(vocab, ids[j]));
                }
            }
        }
    }
}

/// Every relation that a formula reads gets an edge, or the rule is refused: an exported formula
/// refers to nothing that the vocabulary cannot resolve.
pub proof fn formula_reads_all_arrive(
    vocab: Vocabulary,
    node: Seq<char>,
    formula: JsonView,
    edge: Seq<char>,
)
    ensures
        refusal(reads_steps(vocab, node, formula, edge)) is None <==> (forall|i: int|
            0 <= i < expr_ids(formula).len() ==> readable(vocab, #[trigger] expr_ids(formula)[i])),
        refusal(reads_steps(vocab, node, formula, edge)) is None ==> (forall|i: int|
            0 <= i < expr_ids(formula).len() ==> emitted(
                reads_steps(vocab, node, formula, edge),
            ).contains(
                link(
                    node,
                    utopia_iri("readsPredicate"@),
                    vocab.relation_iri((#[trigger] expr_ids(formula)[i])->0)->0,
                ),
            )),
{
    reveal(reads_steps);
    lemma_reads(vocab, node, expr_ids(formula), edge, expr_ids(formula).len());
}

} // verus!
