//! Asserted facts and open statements.
use crate::cells::{
    emit_instant, emit_integer, emit_link, emit_literal, emit_mark, emit_opt_instant, emit_opt_json,
    emit_opt_text, emit_text, emit_texts, inside, inside_if, inside_if_steps, inside_steps,
    mark_steps, not_foreign, not_merged, opt_instant_steps, opt_json_steps, opt_text_steps,
    outside_message, resolved, texts_steps, unexported_message, unresolved_message,
};
use crate::emit_validity::{emit_validity, validity_steps};
use crate::json::{json_compact, json_get_str, Json};
use crate::literals::{
    confidence, confidence_literal, instant_literal, integer_literal, is_relative, literal_value,
    relative, text, text_literal, value_literal, world_literal, world_time,
};
use crate::names::Names;
use crate::rows::{ExportFact, ExportStatementQualifier, ExportTimeMention, FactQualifier};
use crate::sink::Sink;
use crate::steps::{
    barrier, each, group_steps, lemma_each_stops, lit, nothing, one, only_if, res, stop_if, took,
    wrote, Refused, Step,
};
use crate::term::{
    blank_states, plain_label, prov, prov_iri, rdf, rdf_iri, rdfs, rdfs_iri, states, utopia,
    utopia_iri, BlankNode, Literal, NamedNode, SubjectRef, Term, TermRef, TermView, TripleRef,
};
use crate::text::{borrowed, join2, join3, nat_text, opt_str, opt_text, str_eq, unsigned_text};
use crate::time::DateTime;
use crate::uuid::{uuid_text_chars, Uuid};
use crate::vocabulary::Vocabulary;
use crate::words::lemma_export_word;
use vstd::prelude::*;

verus! {

broadcast use {group_steps, lemma_export_word};

// ---- What a fact says ----

/// The IRI of the relation that a fact is about. A fact that the ontology has no relation for has
/// none.
pub open spec fn fact_predicate(vocab: Vocabulary, f: ExportFact) -> Option<Seq<char>> {
    match f.predicate_id {
        Some(p) => vocab.relation_iri(p),
        None => None,
    }
}

/// The object of a fact: an entity, or else the stored value, with the declared type of the
/// relation if there is one.
pub open spec fn fact_object(names: Names, vocab: Vocabulary, f: ExportFact) -> Option<TermView> {
    match (f.object_id, f.object_value) {
        (Some(o), _) => Some(TermView::Named(names.entity_iri(o))),
        (None, Some(v)) => Some(
            TermView::Literal(
                value_literal(
                    v@,
                    match f.predicate_id {
                        Some(p) => vocab.datatype(p),
                        None => None,
                    },
                ),
            ),
        ),
        (None, None) => None,
    }
}

/// A fact holds at `now`: it was not retracted, and `now` lies in the interval in which it holds.
pub open spec fn holds_at(f: ExportFact, now: DateTime) -> bool {
    &&& f.invalidated_at is None
    &&& f.holds_from matches Some(from) && from.not_after(now)
    &&& f.holds_to matches Some(to) ==> !to.not_after(now)
}

// ---- Barriers ----

/// The rows at which a fact is refused before a triple of it is written.
#[verifier::opaque]
pub open spec fn fact_barrier_steps(names: Names, vocab: Vocabulary, f: ExportFact) -> Seq<Step> {
    inside_steps(names, f.subject_kb, "fact.subject"@)
        + inside_if_steps(names, f.object_id, f.object_kb, "fact.object"@)
        + inside_if_steps(names, f.predicate_id, f.predicate_kb, "fact.predicate"@)
        + inside_if_steps(names, f.supersedes, f.supersedes_kb, "fact.supersedes"@)
        + stop_if(f.subject_merged, unexported_message("fact.subject(merged)"@))
        + stop_if(f.object_merged, unexported_message("fact.object(merged)"@))
        + stop_if(f.foreign_document, outside_message("evidence.document"@))
        + stop_if(f.foreign_source, outside_message("fact.source"@))
        + stop_if(
        f.predicate_id is Some && fact_predicate(vocab, f) is None,
        unresolved_message("fact.predicate"@),
    )
}

fn pass_fact(names: &Names, vocab: &Vocabulary, f: &ExportFact) -> (r: Result<(), Refused>)
    ensures
        barrier(r, fact_barrier_steps(*names, *vocab, *f)),
{
    proof {
        reveal(fact_barrier_steps);
    }
    inside(names, f.subject_kb, "fact.subject")?;
    inside_if(names, f.object_id, f.object_kb, "fact.object")?;
    inside_if(names, f.predicate_id, f.predicate_kb, "fact.predicate")?;
    inside_if(names, f.supersedes, f.supersedes_kb, "fact.supersedes")?;
    not_merged(f.subject_merged, "fact.subject(merged)")?;
    not_merged(f.object_merged, "fact.object(merged)")?;
    not_foreign(f.foreign_document, "evidence.document")?;
    not_foreign(f.foreign_source, "fact.source")?;
    let unknown: bool = match f.predicate_id {
        Some(p) => vocab.relation(p).is_none(),
        None => false,
    };
    proof {
        reveal(stop_if);
    }
    if unknown {
        Err(resolved("fact.predicate"))
    } else {
        Ok(())
    }
}

// ---- The statement ----

/// An open statement is marked as one and called by the document's own word.
#[verifier::opaque]
pub open spec fn open_steps(stmt: Seq<char>, f: ExportFact) -> Seq<Step> {
    only_if(
        f.layer@ == "open"@,
        res(stmt, rdf_iri("type"@), utopia_iri("OpenStatement"@)) + opt_text_steps(
            stmt,
            rdfs_iri("label"@),
            f.phrase,
        ),
    )
}

fn emit_open(sink: &mut Sink, stmt: &NamedNode, f: &ExportFact)
    requires
        old(sink).wf(),
    ensures
        wrote(*old(sink), *final(sink), open_steps(stmt@, *f)),
{
    proof {
        reveal(open_steps);
    }
    if str_eq(f.layer.as_str(), "open") {
        emit_link(sink, stmt, &rdf("type"), &utopia("OpenStatement"));
        emit_opt_text(sink, stmt, &rdfs("label"), &f.phrase);
    }
}

/// The edge to the `i`-th fact of a list.
pub open spec fn fact_link_at(names: Names, s: Seq<char>, p: Seq<char>, ids: Seq<Uuid>) -> spec_fn(
    int,
) -> Seq<Step> {
    |i: int| res(s, p, names.fact_iri(ids[i]))
}

/// Edges to the facts of a list, in order.
#[verifier::opaque]
pub open spec fn fact_links_steps(
    names: Names,
    s: Seq<char>,
    p: Seq<char>,
    ids: Seq<Uuid>,
) -> Seq<Step,
> {
    each(ids.len(), fact_link_at(names, s, p, ids))
}

fn emit_fact_links(sink: &mut Sink, names: &Names, s: &NamedNode, p: &NamedNode, ids: &Vec<Uuid>)
    requires
        old(sink).wf(),
    ensures
        wrote(*old(sink), *final(sink), fact_links_steps(*names, s@, p@, ids@)),
{
    proof {
        reveal(fact_links_steps);
    }
    let ghost f = fact_link_at(*names, s@, p@, ids@);
    let mut i: usize = 0;
    while i < ids.len()
        invariant
            i <= ids@.len(),
            f == fact_link_at(*names, s@, p@, ids@),
            sink.wf(),
            wrote(*old(sink), *sink, each(i as nat, f)),
        decreases ids@.len() - i,
    {
        proof {
            assert(each((i + 1) as nat, f) == each(i as nat, f) + f(i as int));
        }
        sink.r(s, p, &names.fact(ids[i]));
        i += 1;
    }
}

/// The edge to the `i`-th document of a list.
pub open spec fn document_link_at(
    names: Names,
    s: Seq<char>,
    p: Seq<char>,
    ids: Seq<Uuid>,
) -> spec_fn(int) -> Seq<Step> {
    |i: int| res(s, p, names.document_iri(ids[i]))
}

/// Edges to the documents of a list, in order.
#[verifier::opaque]
pub open spec fn document_links_steps(
    names: Names,
    s: Seq<char>,
    p: Seq<char>,
    ids: Seq<Uuid>,
) -> Seq<Step> {
    each(ids.len(), document_link_at(names, s, p, ids))
}

fn emit_document_links(
    sink: &mut Sink,
    names: &Names,
    s: &NamedNode,
    p: &NamedNode,
    ids: &Vec<Uuid>,
)
    requires
        old(sink).wf(),
    ensures
        wrote(*old(sink), *final(sink), document_links_steps(*names, s@, p@, ids@)),
{
    proof {
        reveal(document_links_steps);
    }
    let ghost f = document_link_at(*names, s@, p@, ids@);
    let mut i: usize = 0;
    while i < ids.len()
        invariant
            i <= ids@.len(),
            f == document_link_at(*names, s@, p@, ids@),
            sink.wf(),
            wrote(*old(sink), *sink, each(i as nat, f)),
        decreases ids@.len() - i,
    {
        proof {
            assert(each((i + 1) as nat, f) == each(i as nat, f) + f(i as int));
        }
        sink.r(s, p, &names.document(ids[i]));
        i += 1;
    }
}

/// The relation of a statement; or, where the ontology has none, the words that were heard. No
/// relation is made up for them.
#[verifier::opaque]
pub open spec fn predicate_steps(
    stmt: Seq<char>,
    predicate: Option<Seq<char>>,
    surface: Option<String>,
) -> Seq<Step> {
    match (predicate, surface) {
        (Some(p), _) => res(stmt, rdf_iri("predicate"@), p),
        (None, Some(word)) => lit(stmt, utopia_iri("proposedPredicate"@), text_literal(word@)),
        (None, None) => nothing(),
    }
}

fn emit_predicate(
    sink: &mut Sink,
    stmt: &NamedNode,
    predicate: Option<&NamedNode>,
    surface: &Option<String>,
)
    requires
        old(sink).wf(),
    ensures
        wrote(
            *old(sink),
            *final(sink),
            predicate_steps(
                stmt@,
                match predicate {
                    Some(p) => Some(p@),
                    None => None,
                },
                *surface,
            ),
        ),
{
    proof {
        reveal(predicate_steps);
    }
    match (predicate, surface) {
        (Some(p), _) => {
            sink.r(stmt, &rdf("predicate"), p);
        },
        (None, Some(word)) => {
            sink.l(stmt, &utopia("proposedPredicate"), &text(word.as_str()));
        },
        (None, None) => {},
    }
}

/// The object of a statement, if it has one.
#[verifier::opaque]
pub open spec fn object_steps(stmt: Seq<char>, object: Option<TermView>) -> Seq<Step> {
    match object {
        Some(o) => one(states(stmt, rdf_iri("object"@), o)),
        None => nothing(),
    }
}

/// What an optional term is.
pub open spec fn opt_term(t: Option<Term>) -> Option<TermView> {
    match t {
        Some(o) => Some(o@),
        None => None,
    }
}

fn emit_object(sink: &mut Sink, stmt: &NamedNode, object: &Option<Term>)
    requires
        old(sink).wf(),
    ensures
        wrote(*old(sink), *final(sink), object_steps(stmt@, opt_term(*object))),
{
    proof {
        reveal(object_steps);
    }
    if let Some(o) = object {
        sink.triple(
            &TripleRef {
                subject: SubjectRef::NamedNode(stmt),
                predicate: &rdf("object"),
                object: o.as_ref(),
            },
        );
    }
}

/// The unit that a value was recorded with. It does not go into the literal, and the relation's
/// own unit may be another.
#[verifier::opaque]
pub open spec fn unit_steps(stmt: Seq<char>, value: Option<Json>) -> Seq<Step> {
    match value {
        Some(v) => match json_get_str(v@, "unit"@) {
            Some(u) => lit(stmt, utopia_iri("unit"@), text_literal(u)),
            None => nothing(),
        },
        None => nothing(),
    }
}

/// Writes the unit that a value was recorded with.
pub fn emit_unit(sink: &mut Sink, stmt: &NamedNode, value: &Option<Json>)
    requires
        old(sink).wf(),
    ensures
        wrote(*old(sink), *final(sink), unit_steps(stmt@, *value)),
{
    proof {
        reveal(unit_steps);
    }
    if let Some(v) = value {
        if let Some(u) = v.get_str("unit") {
            sink.l(stmt, &utopia("unit"), &text(u));
        }
    }
}

/// The value is given only relative to something.
pub open spec fn relative_value(value: Option<Json>) -> bool {
    match value {
        Some(v) => relative(v@),
        None => false,
    }
}

/// What a statement says.
#[verifier::opaque]
pub open spec fn fact_claim_steps(names: Names, vocab: Vocabulary, f: ExportFact) -> Seq<Step> {
    let stmt = names.fact_iri(f.id);
    res(stmt, rdf_iri("type"@), rdf_iri("Statement"@))
        + lit(stmt, utopia_iri("statementLayer"@), text_literal(f.layer@))
        + open_steps(stmt, f)
        + fact_links_steps(names, stmt, utopia_iri("fromStatement"@), f.source_statements@)
        + res(stmt, rdf_iri("subject"@), names.entity_iri(f.subject_id))
        + predicate_steps(stmt, fact_predicate(vocab, f), f.surface_predicate)
        + object_steps(stmt, fact_object(names, vocab, f))
        + mark_steps(stmt, utopia_iri("relativeValue"@), relative_value(f.object_value))
        + unit_steps(stmt, f.object_value)
}

fn emit_fact_claim(
    sink: &mut Sink,
    names: &Names,
    vocab: &Vocabulary,
    f: &ExportFact,
    stmt: &NamedNode,
    predicate: Option<&NamedNode>,
    object: &Option<Term>,
)
    requires
        old(sink).wf(),
        stmt@ == names.fact_iri(f.id),
        match predicate {
            Some(p) => fact_predicate(*vocab, *f) == Some(p@),
            None => fact_predicate(*vocab, *f) is None,
        },
        opt_term(*object) == fact_object(*names, *vocab, *f),
    ensures
        wrote(*old(sink), *final(sink), fact_claim_steps(*names, *vocab, *f)),
{
    proof {
        reveal(fact_claim_steps);
    }
    emit_link(sink, stmt, &rdf("type"), &rdf("Statement"));
    emit_text(sink, stmt, &utopia("statementLayer"), f.layer.as_str());
    emit_open(sink, stmt, f);
    emit_fact_links(sink, names, stmt, &utopia("fromStatement"), &f.source_statements);
    emit_link(sink, stmt, &rdf("subject"), &names.entity(f.subject_id));
    emit_predicate(sink, stmt, predicate, &f.surface_predicate);
    emit_object(sink, stmt, object);
    let is_relative: bool = match &f.object_value {
        Some(v) => is_relative(v),
        None => false,
    };
    emit_mark(sink, stmt, &utopia("relativeValue"), is_relative);
    emit_unit(sink, stmt, &f.object_value);
}

/// The edge to another fact, if there is one.
#[verifier::opaque]
pub open spec fn opt_fact_steps(
    names: Names,
    s: Seq<char>,
    p: Seq<char>,
    id: Option<Uuid>,
) -> Seq<Step> {
    match id {
        Some(i) => res(s, p, names.fact_iri(i)),
        None => nothing(),
    }
}

fn emit_opt_fact(sink: &mut Sink, names: &Names, s: &NamedNode, p: &NamedNode, id: Option<Uuid>)
    requires
        old(sink).wf(),
    ensures
        wrote(*old(sink), *final(sink), opt_fact_steps(*names, s@, p@, id)),
{
    proof {
        reveal(opt_fact_steps);
    }
    if let Some(i) = id {
        sink.r(s, p, &names.fact(i));
    }
}

/// When a statement holds, when it was recorded, and on what it rests.
#[verifier::opaque]
pub open spec fn fact_record_steps(names: Names, f: ExportFact) -> Seq<Step> {
    let stmt = names.fact_iri(f.id);
    validity_steps(
        stmt,
        f.valid_from,
        opt_text(f.valid_from_precision),
        f.valid_to,
        opt_text(f.valid_to_precision),
    )
        + opt_text_steps(stmt, utopia_iri("validFromGrade"@), f.valid_from_grade)
        + lit(stmt, utopia_iri("attestedFrom"@), instant_literal(f.attested_from))
        + opt_instant_steps(stmt, utopia_iri("attestedTo"@), f.attested_to)
        + mark_steps(stmt, utopia_iri("endDerived"@), f.end_derived)
        + mark_steps(stmt, utopia_iri("ruleDerived"@), f.rule_derived)
        + lit(stmt, prov_iri("generatedAtTime"@), instant_literal(f.recorded_at))
        + opt_instant_steps(stmt, prov_iri("invalidatedAtTime"@), f.invalidated_at)
        + lit(stmt, utopia_iri("confidence"@), confidence_literal(f.confidence@))
        + opt_fact_steps(names, stmt, utopia_iri("supersedes"@), f.supersedes)
        + document_links_steps(names, stmt, prov_iri("wasDerivedFrom"@), f.documents@)
        + texts_steps(stmt, utopia_iri("quote"@), f.quotes@)
        + texts_steps(stmt, utopia_iri("evidenceOrigin"@), f.quote_origins@)
}

fn emit_fact_record(sink: &mut Sink, names: &Names, f: &ExportFact, stmt: &NamedNode)
    requires
        old(sink).wf(),
        stmt@ == names.fact_iri(f.id),
    ensures
        wrote(*old(sink), *final(sink), fact_record_steps(*names, *f)),
{
    proof {
        reveal(fact_record_steps);
    }
    emit_validity(
        sink,
        stmt,
        f.valid_from,
        borrowed(&f.valid_from_precision),
        f.valid_to,
        borrowed(&f.valid_to_precision),
    );
    emit_opt_text(sink, stmt, &utopia("validFromGrade"), &f.valid_from_grade);
    emit_instant(sink, stmt, &utopia("attestedFrom"), f.attested_from);
    emit_opt_instant(sink, stmt, &utopia("attestedTo"), f.attested_to);
    emit_mark(sink, stmt, &utopia("endDerived"), f.end_derived);
    emit_mark(sink, stmt, &utopia("ruleDerived"), f.rule_derived);
    emit_instant(sink, stmt, &prov("generatedAtTime"), f.recorded_at);
    emit_opt_instant(sink, stmt, &prov("invalidatedAtTime"), f.invalidated_at);
    emit_literal(sink, stmt, &utopia("confidence"), &confidence(f.confidence.as_str()));
    emit_opt_fact(sink, names, stmt, &utopia("supersedes"), f.supersedes);
    emit_document_links(sink, names, stmt, &prov("wasDerivedFrom"), &f.documents);
    emit_texts(sink, stmt, &utopia("quote"), &f.quotes);
    emit_texts(sink, stmt, &utopia("evidenceOrigin"), &f.quote_origins);
}

// ---- Properties of an edge ----

/// A property of an edge: its type is a relation of the ontology.
#[verifier::opaque]
pub open spec fn qualifier_steps(
    names: Names,
    vocab: Vocabulary,
    stmt: Seq<char>,
    q: FactQualifier,
) -> Seq<Step> {
    match vocab.relation_iri(q.qualifier_type_id) {
        Some(p) => match (q.value, q.entity_id) {
            (Some(v), _) => lit(stmt, p, value_literal(v@, vocab.datatype(q.qualifier_type_id))),
            (None, Some(e)) => res(stmt, p, names.entity_iri(e)),
            (None, None) => nothing(),
        },
        None => stop_if(true, unresolved_message("qualifier.type"@)),
    }
}

fn emit_qualifier(
    sink: &mut Sink,
    names: &Names,
    vocab: &Vocabulary,
    stmt: &NamedNode,
    q: &FactQualifier,
) -> (r: Result<(), Refused>)
    requires
        old(sink).wf(),
    ensures
        took(*old(sink), *final(sink), r, qualifier_steps(*names, *vocab, stmt@, *q)),
{
    proof {
        reveal(qualifier_steps);
    }
    let p: &NamedNode = match vocab.relation(q.qualifier_type_id) {
        Some(p) => p,
        None => {
            return Err(resolved("qualifier.type"));
        },
    };
    if let Some(v) = &q.value {
        let shape = vocab.literal_shape(q.qualifier_type_id);
        sink.l(stmt, p, &literal_value(v, shape.0));
    } else if let Some(e) = q.entity_id {
        sink.r(stmt, p, &names.entity(e));
    }
    Ok(())
}

/// The steps for the `i`-th property of an edge.
pub open spec fn qualifier_at(
    names: Names,
    vocab: Vocabulary,
    stmt: Seq<char>,
    qualifiers: Seq<FactQualifier>,
) -> spec_fn(int) -> Seq<Step> {
    |i: int| qualifier_steps(names, vocab, stmt, qualifiers[i])
}

/// The steps for the properties of an edge, in order.
#[verifier::opaque]
pub open spec fn qualifiers_steps(
    names: Names,
    vocab: Vocabulary,
    stmt: Seq<char>,
    qualifiers: Seq<FactQualifier>,
) -> Seq<Step> {
    each(qualifiers.len(), qualifier_at(names, vocab, stmt, qualifiers))
}

fn emit_qualifiers(
    sink: &mut Sink,
    names: &Names,
    vocab: &Vocabulary,
    stmt: &NamedNode,
    qualifiers: &Vec<FactQualifier>,
) -> (r: Result<(), Refused>)
    requires
        old(sink).wf(),
    ensures
        took(*old(sink), *final(sink), r, qualifiers_steps(*names, *vocab, stmt@, qualifiers@)),
{
    proof {
        reveal(qualifiers_steps);
    }
    let ghost f = qualifier_at(*names, *vocab, stmt@, qualifiers@);
    let mut i: usize = 0;
    while i < qualifiers.len()
        invariant
            i <= qualifiers@.len(),
            f == qualifier_at(*names, *vocab, stmt@, qualifiers@),
            sink.wf(),
            wrote(*old(sink), *sink, each(i as nat, f)),
        decreases qualifiers@.len() - i,
    {
        proof {
            assert(each((i + 1) as nat, f) == each(i as nat, f) + f(i as int));
        }
        let r = emit_qualifier(sink, names, vocab, stmt, &qualifiers[i]);
        if r.is_err() {
            proof {
                reveal(qualifiers_steps);
                lemma_each_stops((i + 1) as nat, qualifiers@.len(), f);
            }
            return r;
        }
        i += 1;
    }
    Ok(())
}

// ---- Properties of an open statement ----

/// The blank node of the `i`-th property of an open statement.
pub open spec fn property_node(fact_id: Uuid, i: nat) -> Seq<char> {
    ("sq-"@ + fact_id.text() + "-"@) + nat_text(i)
}

/// The value of a property, or the entity. An entity of another knowledge base, or a merged one,
/// is refused.
#[verifier::opaque]
pub open spec fn property_value_steps(
    names: Names,
    node: Seq<char>,
    q: ExportStatementQualifier,
) -> Seq<Step> {
    match (q.value, q.entity_id) {
        (Some(v), _) => one(
            blank_states(
                node,
                utopia_iri("qualifierValue"@),
                TermView::Literal(text_literal(json_compact(v@))),
            ),
        ),
        (None, Some(e)) => inside_steps(names, q.entity_kb, "squalifier.entity"@) + stop_if(
            q.entity_merged,
            unexported_message("squalifier.entity(merged)"@),
        ) + one(
            blank_states(node, prov_iri("value"@), TermView::Named(names.entity_iri(e))),
        ),
        (None, None) => nothing(),
    }
}

/// A property of an open statement: the document's own word for a role, and what plays it.
#[verifier::opaque]
pub open spec fn property_steps(
    names: Names,
    stmt: Seq<char>,
    q: ExportStatementQualifier,
    i: nat,
) -> Seq<Step> {
    let node = property_node(q.fact_id, i);
    one(states(stmt, utopia_iri("statementQualifier"@), TermView::Blank(node)))
        + one(blank_states(node, rdf_iri("type"@), TermView::Named(utopia_iri("StatementQualifier"@))))
        + one(blank_states(node, utopia_iri("role"@), TermView::Literal(text_literal(q.role@))))
        + property_value_steps(names, node, q)
}

proof fn lemma_property_node_plain(fact_id: Uuid, i: nat)
    ensures
        plain_label(property_node(fact_id, i)),
{
    reveal_strlit("sq-");
    reveal_strlit("-");
    uuid_text_chars(fact_id.value);
    lemma_nat_text_digits(i);
    let s = property_node(fact_id, i);
    let head = "sq-"@ + fact_id.text() + "-"@;
    assert(s[0] == "sq-"@[0]);
    assert forall|j: int| 0 <= j < s.len() implies ('a' <= #[trigger] s[j] <= 'z' || 'A' <= s[j]
        <= 'Z' || '0' <= s[j] <= '9' || s[j] == '-') by {
        if j < 3 {
            assert(s[j] == "sq-"@[j]);
            assert(j == 0 || j == 1 || j == 2);
        } else if j < 39 {
            assert(s[j] == fact_id.text()[j - 3]);
        } else if j == 39 {
            assert(s[j] == "-"@[0]);
        } else {
            assert(s[j] == nat_text(i)[j - 40]);
        }
    }
}

proof fn lemma_nat_text_digits(n: nat)
    ensures
        nat_text(n).len() > 0,
        forall|j: int| 0 <= j < nat_text(n).len() ==> '0' <= #[trigger] nat_text(n)[j] <= '9',
    decreases n,
{
    if n >= 10 {
        lemma_nat_text_digits(n / 10);
    }
}

fn emit_blank(sink: &mut Sink, node: &BlankNode, p: &NamedNode, o: TermRef<'_>)
    requires
        old(sink).wf(),
    ensures
        wrote(*old(sink), *final(sink), one(blank_states(node@, p@, o@))),
{
    sink.triple(&TripleRef { subject: SubjectRef::BlankNode(node), predicate: p, object: o });
}

fn emit_property_value(
    sink: &mut Sink,
    names: &Names,
    node: &BlankNode,
    q: &ExportStatementQualifier,
) -> (r: Result<(), Refused>)
    requires
        old(sink).wf(),
    ensures
        took(*old(sink), *final(sink), r, property_value_steps(*names, node@, *q)),
{
    proof {
        reveal(property_value_steps);
    }
    if let Some(v) = &q.value {
        let value: Literal = text(v.to_text().as_str());
        emit_blank(sink, node, &utopia("qualifierValue"), TermRef::Literal(&value));
    } else if let Some(e) = q.entity_id {
        inside(names, q.entity_kb, "squalifier.entity")?;
        not_merged(q.entity_merged, "squalifier.entity(merged)")?;
        let entity: NamedNode = names.entity(e);
        emit_blank(sink, node, &prov("value"), TermRef::NamedNode(&entity));
    }
    Ok(())
}

fn emit_property(
    sink: &mut Sink,
    names: &Names,
    stmt: &NamedNode,
    q: &ExportStatementQualifier,
    i: usize,
) -> (r: Result<(), Refused>)
    requires
        old(sink).wf(),
    ensures
        took(*old(sink), *final(sink), r, property_steps(*names, stmt@, *q, i as nat)),
{
    proof {
        reveal(property_steps);
        lemma_property_node_plain(q.fact_id, i as nat);
    }
    let head: String = join3("sq-", q.fact_id.to_string().as_str(), "-");
    let id: String = join2(head.as_str(), unsigned_text(i as u64).as_str());
    let node: BlankNode = BlankNode::new(id).unwrap();
    sink.triple(
        &TripleRef {
            subject: SubjectRef::NamedNode(stmt),
            predicate: &utopia("statementQualifier"),
            object: TermRef::BlankNode(&node),
        },
    );
    emit_blank(sink, &node, &rdf("type"), TermRef::NamedNode(&utopia("StatementQualifier")));
    emit_blank(sink, &node, &utopia("role"), TermRef::Literal(&text(q.role.as_str())));
    emit_property_value(sink, names, &node, q)
}

/// The steps for the `i`-th property of an open statement.
pub open spec fn property_at(
    names: Names,
    stmt: Seq<char>,
    qualifiers: Seq<ExportStatementQualifier>,
) -> spec_fn(int) -> Seq<Step> {
    |i: int| property_steps(names, stmt, qualifiers[i], i as nat)
}

/// The steps for the properties of an open statement, in order.
#[verifier::opaque]
pub open spec fn properties_steps(
    names: Names,
    stmt: Seq<char>,
    qualifiers: Seq<ExportStatementQualifier>,
) -> Seq<Step> {
    each(qualifiers.len(), property_at(names, stmt, qualifiers))
}

fn emit_properties(
    sink: &mut Sink,
    names: &Names,
    stmt: &NamedNode,
    qualifiers: &Vec<ExportStatementQualifier>,
) -> (r: Result<(), Refused>)
    requires
        old(sink).wf(),
    ensures
        took(*old(sink), *final(sink), r, properties_steps(*names, stmt@, qualifiers@)),
{
    proof {
        reveal(properties_steps);
    }
    let ghost f = property_at(*names, stmt@, qualifiers@);
    let mut i: usize = 0;
    while i < qualifiers.len()
        invariant
            i <= qualifiers@.len(),
            f == property_at(*names, stmt@, qualifiers@),
            sink.wf(),
            wrote(*old(sink), *sink, each(i as nat, f)),
        decreases qualifiers@.len() - i,
    {
        proof {
            assert(each((i + 1) as nat, f) == each(i as nat, f) + f(i as int));
        }
        let r = emit_property(sink, names, stmt, &qualifiers[i], i);
        if r.is_err() {
            proof {
                reveal(properties_steps);
                lemma_each_stops((i + 1) as nat, qualifiers@.len(), f);
            }
            return r;
        }
        i += 1;
    }
    Ok(())
}

// ---- Time mentions ----

/// A resolved time, with the precision it has.
#[verifier::opaque]
pub open spec fn resolved_time_steps(
    node: Seq<char>,
    p: Seq<char>,
    at: Option<DateTime>,
    precision: Option<Seq<char>>,
) -> Seq<Step> {
    match at {
        Some(t) => lit(node, p, world_literal(t, precision)),
        None => nothing(),
    }
}

fn emit_resolved_time(
    sink: &mut Sink,
    node: &NamedNode,
    p: &NamedNode,
    at: Option<DateTime>,
    precision: Option<&str>,
)
    requires
        old(sink).wf(),
    ensures
        wrote(*old(sink), *final(sink), resolved_time_steps(node@, p@, at, opt_str(precision))),
{
    proof {
        reveal(resolved_time_steps);
    }
    if let Some(t) = at {
        sink.l(node, p, &world_time(t, precision));
    }
}

/// The words of a statement that say when.
#[verifier::opaque]
pub open spec fn mention_words_steps(
    names: Names,
    stmt: Seq<char>,
    m: ExportTimeMention,
) -> Seq<Step> {
    let node = names.mention_iri(m.id);
    inside_steps(names, m.chunk_kb, "timemention.chunk"@)
        + res(stmt, utopia_iri("timeMention"@), node)
        + res(node, rdf_iri("type"@), utopia_iri("TimeMention"@))
        + lit(node, utopia_iri("role"@), text_literal(m.role@))
        + lit(node, utopia_iri("text"@), text_literal(m.text@))
        + lit(node, utopia_iri("charStart"@), integer_literal(m.char_start as int))
        + res(node, utopia_iri("onChunk"@), names.chunk_iri(m.chunk_id))
        + opt_text_steps(node, utopia_iri("shape"@), m.shape)
        + opt_json_steps(node, utopia_iri("reference"@), m.reference)
        + opt_text_steps(node, utopia_iri("granularity"@), m.granularity)
        + opt_text_steps(node, utopia_iri("grade"@), m.grade)
}

/// What the words resolve to.
#[verifier::opaque]
pub open spec fn mention_resolution_steps(names: Names, m: ExportTimeMention) -> Seq<Step> {
    let node = names.mention_iri(m.id);
    resolved_time_steps(
        node,
        utopia_iri("resolvedFrom"@),
        m.resolved_from,
        opt_text(m.resolved_from_precision),
    )
        + opt_text_steps(node, utopia_iri("resolvedFromPrecision"@), m.resolved_from_precision)
        + resolved_time_steps(
        node,
        utopia_iri("resolvedTo"@),
        m.resolved_to,
        opt_text(m.resolved_to_precision),
    )
        + opt_text_steps(node, utopia_iri("resolvedToPrecision"@), m.resolved_to_precision)
        + opt_instant_steps(node, utopia_iri("resolvedAt"@), m.resolved_at)
        + lit(node, prov_iri("generatedAtTime"@), instant_literal(m.recorded_at))
}

fn emit_mention_words(
    sink: &mut Sink,
    names: &Names,
    stmt: &NamedNode,
    m: &ExportTimeMention,
) -> (r: Result<(), Refused>)
    requires
        old(sink).wf(),
    ensures
        took(*old(sink), *final(sink), r, mention_words_steps(*names, stmt@, *m)),
{
    proof {
        reveal(mention_words_steps);
    }
    inside(names, m.chunk_kb, "timemention.chunk")?;
    let node: NamedNode = names.mention(m.id);
    emit_link(sink, stmt, &utopia("timeMention"), &node);
    emit_link(sink, &node, &rdf("type"), &utopia("TimeMention"));
    emit_text(sink, &node, &utopia("role"), m.role.as_str());
    emit_text(sink, &node, &utopia("text"), m.text.as_str());
    emit_integer(sink, &node, &utopia("charStart"), m.char_start as i64);
    emit_link(sink, &node, &utopia("onChunk"), &names.chunk(m.chunk_id));
    emit_opt_text(sink, &node, &utopia("shape"), &m.shape);
    emit_opt_json(sink, &node, &utopia("reference"), &m.reference);
    emit_opt_text(sink, &node, &utopia("granularity"), &m.granularity);
    emit_opt_text(sink, &node, &utopia("grade"), &m.grade);
    Ok(())
}

fn emit_mention_resolution(sink: &mut Sink, names: &Names, m: &ExportTimeMention)
    requires
        old(sink).wf(),
    ensures
        wrote(*old(sink), *final(sink), mention_resolution_steps(*names, *m)),
{
    proof {
        reveal(mention_resolution_steps);
    }
    let node: NamedNode = names.mention(m.id);
    emit_resolved_time(
        sink,
        &node,
        &utopia("resolvedFrom"),
        m.resolved_from,
        borrowed(&m.resolved_from_precision),
    );
    emit_opt_text(sink, &node, &utopia("resolvedFromPrecision"), &m.resolved_from_precision);
    emit_resolved_time(
        sink,
        &node,
        &utopia("resolvedTo"),
        m.resolved_to,
        borrowed(&m.resolved_to_precision),
    );
    emit_opt_text(sink, &node, &utopia("resolvedToPrecision"), &m.resolved_to_precision);
    emit_opt_instant(sink, &node, &utopia("resolvedAt"), m.resolved_at);
    emit_instant(sink, &node, &prov("generatedAtTime"), m.recorded_at);
}

/// The steps for the `i`-th time mention of a statement.
pub open spec fn mention_at(
    names: Names,
    stmt: Seq<char>,
    mentions: Seq<ExportTimeMention>,
) -> spec_fn(int) -> Seq<Step> {
    |i: int|
        mention_words_steps(names, stmt, mentions[i]) + mention_resolution_steps(names, mentions[i])
}

/// The steps for the time mentions of a statement, in order.
#[verifier::opaque]
pub open spec fn mentions_steps(
    names: Names,
    stmt: Seq<char>,
    mentions: Seq<ExportTimeMention>,
) -> Seq<Step> {
    each(mentions.len(), mention_at(names, stmt, mentions))
}

fn emit_mentions(
    sink: &mut Sink,
    names: &Names,
    stmt: &NamedNode,
    mentions: &Vec<ExportTimeMention>,
) -> (r: Result<(), Refused>)
    requires
        old(sink).wf(),
    ensures
        took(*old(sink), *final(sink), r, mentions_steps(*names, stmt@, mentions@)),
{
    proof {
        reveal(mentions_steps);
    }
    let ghost f = mention_at(*names, stmt@, mentions@);
    let mut i: usize = 0;
    while i < mentions.len()
        invariant
            i <= mentions@.len(),
            f == mention_at(*names, stmt@, mentions@),
            sink.wf(),
            wrote(*old(sink), *sink, each(i as nat, f)),
        decreases mentions@.len() - i,
    {
        proof {
            assert(each((i + 1) as nat, f) == each(i as nat, f) + f(i as int));
        }
        let r = emit_mention_words(sink, names, stmt, &mentions[i]);
        if r.is_err() {
            proof {
                reveal(mentions_steps);
                lemma_each_stops((i + 1) as nat, mentions@.len(), f);
            }
            return r;
        }
        emit_mention_resolution(sink, names, &mentions[i]);
        i += 1;
    }
    Ok(())
}

// ---- The fact itself ----

/// The edge between the entities themselves, for readers who look at nothing else. It is written
/// only while the fact holds: else they would read of things that ended as if they had not.
#[verifier::opaque]
pub open spec fn live_edge_steps(
    names: Names,
    vocab: Vocabulary,
    f: ExportFact,
    now: DateTime,
) -> Seq<Step> {
    match (fact_predicate(vocab, f), fact_object(names, vocab, f)) {
        (Some(p), Some(o)) => only_if(
            holds_at(f, now),
            one(states(names.entity_iri(f.subject_id), p, o)),
        ),
        _ => nothing(),
    }
}

fn emit_live_edge(
    sink: &mut Sink,
    names: &Names,
    f: &ExportFact,
    predicate: Option<&NamedNode>,
    object: &Option<Term>,
    now: DateTime,
    vocab: &Vocabulary,
)
    requires
        old(sink).wf(),
        match predicate {
            Some(p) => fact_predicate(*vocab, *f) == Some(p@),
            None => fact_predicate(*vocab, *f) is None,
        },
        opt_term(*object) == fact_object(*names, *vocab, *f),
    ensures
        wrote(*old(sink), *final(sink), live_edge_steps(*names, *vocab, *f, now)),
{
    proof {
        reveal(live_edge_steps);
    }
    let begun: bool = match f.holds_from {
        Some(from) => from.at_or_before(&now),
        None => false,
    };
    let ended: bool = match f.holds_to {
        Some(to) => to.at_or_before(&now),
        None => false,
    };
    if f.invalidated_at.is_none() && begun && !ended {
        if let (Some(p), Some(o)) = (predicate, object) {
            let subject: NamedNode = names.entity(f.subject_id);
            sink.triple(
                &TripleRef {
                    subject: SubjectRef::NamedNode(&subject),
                    predicate: p,
                    object: o.as_ref(),
                },
            );
        }
    }
}

/// The steps for a fact: a statement in any case, and the edge itself while the fact holds.
pub open spec fn fact_steps(
    names: Names,
    vocab: Vocabulary,
    f: ExportFact,
    now: DateTime,
) -> Seq<Step> {
    let stmt = names.fact_iri(f.id);
    fact_barrier_steps(names, vocab, f)
        + fact_claim_steps(names, vocab, f)
        + fact_record_steps(names, f)
        + qualifiers_steps(names, vocab, stmt, f.qualifiers@)
        + properties_steps(names, stmt, f.statement_qualifiers@)
        + mentions_steps(names, stmt, f.time_mentions@)
        + live_edge_steps(names, vocab, f, now)
}

/// Writes a fact.
pub fn emit_fact(
    sink: &mut Sink,
    names: &Names,
    vocab: &Vocabulary,
    f: &ExportFact,
    now: DateTime,
) -> (r: Result<(), Refused>)
    requires
        old(sink).wf(),
    ensures
        took(*old(sink), *final(sink), r, fact_steps(*names, *vocab, *f, now)),
{
    pass_fact(names, vocab, f)?;
    let stmt: NamedNode = names.fact(f.id);
    let predicate: Option<&NamedNode> = match f.predicate_id {
        Some(p) => vocab.relation(p),
        None => None,
    };
    let object: Option<Term> = match (f.object_id, &f.object_value) {
        (Some(o), _) => Some(Term::NamedNode(names.entity(o))),
        (None, Some(v)) => {
            // A statement without a relation still has an object; only its type is unknown.
            let datatype: Option<&str> = match f.predicate_id {
                Some(p) => vocab.literal_shape(p).0,
                None => None,
            };
            Some(Term::Literal(literal_value(v, datatype)))
        },
        (None, None) => None,
    };
    emit_fact_claim(sink, names, vocab, f, &stmt, predicate, &object);
    emit_fact_record(sink, names, f, &stmt);
    emit_qualifiers(sink, names, vocab, &stmt, &f.qualifiers)?;
    emit_properties(sink, names, &stmt, &f.statement_qualifiers)?;
    emit_mentions(sink, names, &stmt, &f.time_mentions)?;
    emit_live_edge(sink, names, f, predicate, &object, now, vocab);
    Ok(())
}

} // verus!
