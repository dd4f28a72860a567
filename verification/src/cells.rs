//! The pieces that emitters are made of, each with its steps.
use crate::json::{json_compact, Json};
use crate::literals::{
    dt, flag, flag_literal, instant_literal, integer, integer_literal, text, text_literal,
};
use crate::names::Names;
use crate::sink::Sink;
use crate::steps::{
    barrier, each, group_steps, lemma_each_stops, lit, nothing, only_if, refusal, res, stop_if,
    took, wrote, Refused, Step,
};
use crate::term::{Literal, NamedNode};
use crate::text::join3;
use crate::time::DateTime;
use crate::uuid::Uuid;
use crate::vocabulary::Vocabulary;
use vstd::prelude::*;

verus! {

broadcast use group_steps;

// ---- Refusals ----

/// The message for a reference to a row of another knowledge base, or to no row.
pub open spec fn outside_message(edge: Seq<char>) -> Seq<char> {
    "export refused: "@ + edge + " points outside the knowledge base"@
}

/// The message for a reference to a row of this knowledge base that is not exported.
pub open spec fn unexported_message(edge: Seq<char>) -> Seq<char> {
    "export refused: "@ + edge + " points at a row outside this KB's exported set"@
}

/// The message for a reference that the vocabulary does not know.
pub open spec fn unresolved_message(edge: Seq<char>) -> Seq<char> {
    "export refused: "@ + edge + " cannot be resolved in this KB's vocabulary"@
}

/// Stop, unless a reference stays inside the knowledge base of the export.
#[verifier::opaque]
pub open spec fn inside_steps(names: Names, ref_kb: Option<Uuid>, edge: Seq<char>) -> Seq<Step> {
    stop_if(ref_kb != Some(names.kb()), outside_message(edge))
}

/// The refusal of a reference to a row of another knowledge base, or to no row.
pub fn outside(edge: &str) -> (e: Refused)
    ensures
        e.message@ == outside_message(edge@),
{
    Refused {
        message: join3("export refused: ", edge, " points outside the knowledge base"),
    }
}

/// The last barrier in front of an IRI: a reference whose row belongs to another knowledge base, or
/// is not there, gets no IRI of this one.
pub fn inside(names: &Names, ref_kb: Option<Uuid>, edge: &str) -> (r: Result<(), Refused>)
    ensures
        r is Ok == (ref_kb == Some(names.kb())),
        barrier(r, inside_steps(*names, ref_kb, edge@)),
{
    proof {
        reveal(inside_steps);
        reveal(stop_if);
    }
    let here: bool = match ref_kb {
        Some(kb) => kb == names.kb_id(),
        None => false,
    };
    if here {
        Ok(())
    } else {
        Err(outside(edge))
    }
}

/// The barrier for a reference that a row may do without.
#[verifier::opaque]
pub open spec fn inside_if_steps(
    names: Names,
    id: Option<Uuid>,
    ref_kb: Option<Uuid>,
    edge: Seq<char>,
) -> Seq<Step> {
    only_if(id is Some, inside_steps(names, ref_kb, edge))
}

/// The barrier for a reference that a row may do without.
pub fn inside_if(
    names: &Names,
    id: Option<Uuid>,
    ref_kb: Option<Uuid>,
    edge: &str,
) -> (r: Result<(), Refused>)
    ensures
        barrier(r, inside_if_steps(*names, id, ref_kb, edge@)),
{
    proof {
        reveal(inside_if_steps);
    }
    if id.is_some() {
        inside(names, ref_kb, edge)
    } else {
        Ok(())
    }
}

/// The barrier for a mark that says: a reference leaves the knowledge base.
pub fn not_foreign(foreign: bool, edge: &str) -> (r: Result<(), Refused>)
    ensures
        barrier(r, stop_if(foreign, outside_message(edge@))),
{
    proof {
        reveal(stop_if);
    }
    if foreign {
        Err(outside(edge))
    } else {
        Ok(())
    }
}

/// The barrier for a mark that says: a reference points at a merged entity.
pub fn not_merged(merged: bool, edge: &str) -> (r: Result<(), Refused>)
    ensures
        barrier(r, stop_if(merged, unexported_message(edge@))),
{
    proof {
        reveal(stop_if);
    }
    if merged {
        Err(unexported(edge))
    } else {
        Ok(())
    }
}

/// The refusal of a reference to a row that is not exported: an entity that was merged into
/// another.
pub fn unexported(edge: &str) -> (e: Refused)
    ensures
        e.message@ == unexported_message(edge@),
{
    Refused {
        message: join3(
            "export refused: ",
            edge,
            " points at a row outside this KB's exported set",
        ),
    }
}

/// The refusal of a reference that the vocabulary does not know. To leave it out would let a piece
/// of meaning disappear without a word.
pub fn resolved(edge: &str) -> (e: Refused)
    ensures
        e.message@ == unresolved_message(edge@),
{
    Refused {
        message: join3("export refused: ", edge, " cannot be resolved in this KB's vocabulary"),
    }
}

// ---- Cells that may be absent ----

/// A text, if there is one.
#[verifier::opaque]
pub open spec fn opt_text_steps(s: Seq<char>, p: Seq<char>, o: Option<String>) -> Seq<Step> {
    match o {
        Some(t) => lit(s, p, text_literal(t@)),
        None => nothing(),
    }
}

/// A text, if it is not empty.
#[verifier::opaque]
pub open spec fn nonempty_steps(s: Seq<char>, p: Seq<char>, o: String) -> Seq<Step> {
    only_if(o@.len() > 0, lit(s, p, text_literal(o@)))
}

/// An instant, if there is one.
#[verifier::opaque]
pub open spec fn opt_instant_steps(s: Seq<char>, p: Seq<char>, o: Option<DateTime>) -> Seq<Step> {
    match o {
        Some(t) => lit(s, p, instant_literal(t)),
        None => nothing(),
    }
}

/// An integer, if there is one.
#[verifier::opaque]
pub open spec fn opt_integer_steps(s: Seq<char>, p: Seq<char>, o: Option<i32>) -> Seq<Step> {
    match o {
        Some(n) => lit(s, p, integer_literal(n as int)),
        None => nothing(),
    }
}

/// The JSON text of a value, if there is one.
#[verifier::opaque]
pub open spec fn opt_json_steps(s: Seq<char>, p: Seq<char>, o: Option<Json>) -> Seq<Step> {
    match o {
        Some(v) => lit(s, p, text_literal(json_compact(v@))),
        None => nothing(),
    }
}

/// A mark, if the row has it.
#[verifier::opaque]
pub open spec fn mark_steps(s: Seq<char>, p: Seq<char>, o: bool) -> Seq<Step> {
    only_if(o, lit(s, p, flag_literal(true)))
}

/// The text at `i` of a list.
pub open spec fn text_at(
    s: Seq<char>,
    p: Seq<char>,
    texts: Seq<String>,
) -> spec_fn(int) -> Seq<Step,
> {
    |i: int| lit(s, p, text_literal(texts[i]@))
}

/// Every text of a list, in order.
#[verifier::opaque]
pub open spec fn texts_steps(s: Seq<char>, p: Seq<char>, texts: Seq<String>) -> Seq<Step> {
    each(texts.len(), text_at(s, p, texts))
}

pub fn emit_opt_text(sink: &mut Sink, s: &NamedNode, p: &NamedNode, o: &Option<String>)
    requires
        old(sink).wf(),
    ensures
        wrote(*old(sink), *final(sink), opt_text_steps(s@, p@, *o)),
{
    proof {
        reveal(opt_text_steps);
    }
    if let Some(t) = o {
        sink.l(s, p, &text(t.as_str()));
    }
}

pub fn emit_nonempty(sink: &mut Sink, s: &NamedNode, p: &NamedNode, o: &String)
    requires
        old(sink).wf(),
    ensures
        wrote(*old(sink), *final(sink), nonempty_steps(s@, p@, *o)),
{
    proof {
        reveal(nonempty_steps);
    }
    if !o.as_str().is_empty() {
        sink.l(s, p, &text(o.as_str()));
    }
}

pub fn emit_opt_instant(sink: &mut Sink, s: &NamedNode, p: &NamedNode, o: Option<DateTime>)
    requires
        old(sink).wf(),
    ensures
        wrote(*old(sink), *final(sink), opt_instant_steps(s@, p@, o)),
{
    proof {
        reveal(opt_instant_steps);
    }
    if let Some(t) = o {
        sink.l(s, p, &dt(t));
    }
}

pub fn emit_opt_integer(sink: &mut Sink, s: &NamedNode, p: &NamedNode, o: Option<i32>)
    requires
        old(sink).wf(),
    ensures
        wrote(*old(sink), *final(sink), opt_integer_steps(s@, p@, o)),
{
    proof {
        reveal(opt_integer_steps);
    }
    if let Some(n) = o {
        sink.l(s, p, &integer(n as i64));
    }
}

pub fn emit_opt_json(sink: &mut Sink, s: &NamedNode, p: &NamedNode, o: &Option<Json>)
    requires
        old(sink).wf(),
    ensures
        wrote(*old(sink), *final(sink), opt_json_steps(s@, p@, *o)),
{
    proof {
        reveal(opt_json_steps);
    }
    if let Some(v) = o {
        sink.l(s, p, &text(v.to_text().as_str()));
    }
}

pub fn emit_mark(sink: &mut Sink, s: &NamedNode, p: &NamedNode, o: bool)
    requires
        old(sink).wf(),
    ensures
        wrote(*old(sink), *final(sink), mark_steps(s@, p@, o)),
{
    proof {
        reveal(mark_steps);
    }
    if o {
        sink.l(s, p, &flag(true));
    }
}

pub fn emit_text(sink: &mut Sink, s: &NamedNode, p: &NamedNode, o: &str)
    requires
        old(sink).wf(),
    ensures
        wrote(*old(sink), *final(sink), lit(s@, p@, text_literal(o@))),
{
    sink.l(s, p, &text(o));
}

pub fn emit_instant(sink: &mut Sink, s: &NamedNode, p: &NamedNode, o: DateTime)
    requires
        old(sink).wf(),
    ensures
        wrote(*old(sink), *final(sink), lit(s@, p@, instant_literal(o))),
{
    sink.l(s, p, &dt(o));
}

pub fn emit_integer(sink: &mut Sink, s: &NamedNode, p: &NamedNode, o: i64)
    requires
        old(sink).wf(),
    ensures
        wrote(*old(sink), *final(sink), lit(s@, p@, integer_literal(o as int))),
{
    sink.l(s, p, &integer(o));
}

pub fn emit_literal(sink: &mut Sink, s: &NamedNode, p: &NamedNode, o: &Literal)
    requires
        old(sink).wf(),
    ensures
        wrote(*old(sink), *final(sink), lit(s@, p@, o@)),
{
    sink.l(s, p, o);
}

pub fn emit_link(sink: &mut Sink, s: &NamedNode, p: &NamedNode, o: &NamedNode)
    requires
        old(sink).wf(),
    ensures
        wrote(*old(sink), *final(sink), res(s@, p@, o@)),
{
    sink.r(s, p, o);
}

pub fn emit_texts(sink: &mut Sink, s: &NamedNode, p: &NamedNode, texts: &Vec<String>)
    requires
        old(sink).wf(),
    ensures
        wrote(*old(sink), *final(sink), texts_steps(s@, p@, texts@)),
{
    proof {
        reveal(texts_steps);
    }
    let ghost f = text_at(s@, p@, texts@);
    let mut i: usize = 0;
    while i < texts.len()
        invariant
            i <= texts@.len(),
            f == text_at(s@, p@, texts@),
            sink.wf(),
            wrote(*old(sink), *sink, each(i as nat, f)),
        decreases texts@.len() - i,
    {
        sink.l(s, p, &text(texts[i].as_str()));
        i += 1;
        proof {
            assert(each(i as nat, f) == each((i - 1) as nat, f) + f(i - 1));
        }
    }
}

// ---- References into the vocabulary ----

/// A reference to a class: an edge to its IRI, or a stop where the vocabulary does not know it.
#[verifier::opaque]
pub open spec fn class_ref_steps(
    vocab: Vocabulary,
    s: Seq<char>,
    p: Seq<char>,
    id: Uuid,
    edge: Seq<char>,
) -> Seq<Step> {
    match vocab.class_iri(id) {
        Some(o) => res(s, p, o),
        None => stop_if(true, unresolved_message(edge)),
    }
}

/// A reference to a relation: an edge to its IRI, or a stop where the vocabulary does not know it.
#[verifier::opaque]
pub open spec fn relation_ref_steps(
    vocab: Vocabulary,
    s: Seq<char>,
    p: Seq<char>,
    id: Uuid,
    edge: Seq<char>,
) -> Seq<Step> {
    match vocab.relation_iri(id) {
        Some(o) => res(s, p, o),
        None => stop_if(true, unresolved_message(edge)),
    }
}

/// A reference to a relation, if there is one.
#[verifier::opaque]
pub open spec fn opt_relation_ref_steps(
    vocab: Vocabulary,
    s: Seq<char>,
    p: Seq<char>,
    id: Option<Uuid>,
    edge: Seq<char>,
) -> Seq<Step> {
    match id {
        Some(i) => relation_ref_steps(vocab, s, p, i, edge),
        None => nothing(),
    }
}

/// A reference to a class, if there is one.
#[verifier::opaque]
pub open spec fn opt_class_ref_steps(
    vocab: Vocabulary,
    s: Seq<char>,
    p: Seq<char>,
    id: Option<Uuid>,
    edge: Seq<char>,
) -> Seq<Step> {
    match id {
        Some(i) => class_ref_steps(vocab, s, p, i, edge),
        None => nothing(),
    }
}

/// The reference to a class at `i` of a list.
pub open spec fn class_ref_at(
    vocab: Vocabulary,
    s: Seq<char>,
    p: Seq<char>,
    ids: Seq<Uuid>,
    edge: Seq<char>,
) -> spec_fn(int) -> Seq<Step> {
    |i: int| class_ref_steps(vocab, s, p, ids[i], edge)
}

/// The reference to a relation at `i` of a list.
pub open spec fn relation_ref_at(
    vocab: Vocabulary,
    s: Seq<char>,
    p: Seq<char>,
    ids: Seq<Uuid>,
    edge: Seq<char>,
) -> spec_fn(int) -> Seq<Step> {
    |i: int| relation_ref_steps(vocab, s, p, ids[i], edge)
}

/// References to every class of a list, in order.
#[verifier::opaque]
pub open spec fn class_refs_steps(
    vocab: Vocabulary,
    s: Seq<char>,
    p: Seq<char>,
    ids: Seq<Uuid>,
    edge: Seq<char>,
) -> Seq<Step> {
    each(ids.len(), class_ref_at(vocab, s, p, ids, edge))
}

/// References to every relation of a list, in order.
#[verifier::opaque]
pub open spec fn relation_refs_steps(
    vocab: Vocabulary,
    s: Seq<char>,
    p: Seq<char>,
    ids: Seq<Uuid>,
    edge: Seq<char>,
) -> Seq<Step> {
    each(ids.len(), relation_ref_at(vocab, s, p, ids, edge))
}

pub fn emit_class_ref(
    sink: &mut Sink,
    vocab: &Vocabulary,
    s: &NamedNode,
    p: &NamedNode,
    id: Uuid,
    edge: &str,
) -> (r: Result<(), Refused>)
    requires
        old(sink).wf(),
    ensures
        took(*old(sink), *final(sink), r, class_ref_steps(*vocab, s@, p@, id, edge@)),
{
    proof {
        reveal(class_ref_steps);
    }
    match vocab.class(id) {
        Some(o) => {
            sink.r(s, p, o);
            Ok(())
        },
        None => Err(resolved(edge)),
    }
}

pub fn emit_relation_ref(
    sink: &mut Sink,
    vocab: &Vocabulary,
    s: &NamedNode,
    p: &NamedNode,
    id: Uuid,
    edge: &str,
) -> (r: Result<(), Refused>)
    requires
        old(sink).wf(),
    ensures
        took(*old(sink), *final(sink), r, relation_ref_steps(*vocab, s@, p@, id, edge@)),
{
    proof {
        reveal(relation_ref_steps);
    }
    match vocab.relation(id) {
        Some(o) => {
            sink.r(s, p, o);
            Ok(())
        },
        None => Err(resolved(edge)),
    }
}

pub fn emit_opt_class_ref(
    sink: &mut Sink,
    vocab: &Vocabulary,
    s: &NamedNode,
    p: &NamedNode,
    id: Option<Uuid>,
    edge: &str,
) -> (r: Result<(), Refused>)
    requires
        old(sink).wf(),
    ensures
        took(*old(sink), *final(sink), r, opt_class_ref_steps(*vocab, s@, p@, id, edge@)),
{
    proof {
        reveal(opt_class_ref_steps);
    }
    match id {
        Some(i) => emit_class_ref(sink, vocab, s, p, i, edge),
        None => Ok(()),
    }
}

pub fn emit_opt_relation_ref(
    sink: &mut Sink,
    vocab: &Vocabulary,
    s: &NamedNode,
    p: &NamedNode,
    id: Option<Uuid>,
    edge: &str,
) -> (r: Result<(), Refused>)
    requires
        old(sink).wf(),
    ensures
        took(*old(sink), *final(sink), r, opt_relation_ref_steps(*vocab, s@, p@, id, edge@)),
{
    proof {
        reveal(opt_relation_ref_steps);
    }
    match id {
        Some(i) => emit_relation_ref(sink, vocab, s, p, i, edge),
        None => Ok(()),
    }
}

pub fn emit_class_refs(
    sink: &mut Sink,
    vocab: &Vocabulary,
    s: &NamedNode,
    p: &NamedNode,
    ids: &Vec<Uuid>,
    edge: &str,
) -> (r: Result<(), Refused>)
    requires
        old(sink).wf(),
    ensures
        took(*old(sink), *final(sink), r, class_refs_steps(*vocab, s@, p@, ids@, edge@)),
{
    proof {
        reveal(class_refs_steps);
    }
    let ghost f = class_ref_at(*vocab, s@, p@, ids@, edge@);
    let mut i: usize = 0;
    while i < ids.len()
        invariant
            i <= ids@.len(),
            f == class_ref_at(*vocab, s@, p@, ids@, edge@),
            sink.wf(),
            wrote(*old(sink), *sink, each(i as nat, f)),
        decreases ids@.len() - i,
    {
        proof {
            assert(each((i + 1) as nat, f) == each(i as nat, f) + f(i as int));
        }
        let r = emit_class_ref(sink, vocab, s, p, ids[i], edge);
        if r.is_err() {
            proof {
                reveal(class_refs_steps);
                lemma_each_stops((i + 1) as nat, ids@.len(), f);
            }
            return r;
        }
        i += 1;
    }
    Ok(())
}

pub fn emit_relation_refs(
    sink: &mut Sink,
    vocab: &Vocabulary,
    s: &NamedNode,
    p: &NamedNode,
    ids: &Vec<Uuid>,
    edge: &str,
) -> (r: Result<(), Refused>)
    requires
        old(sink).wf(),
    ensures
        took(*old(sink), *final(sink), r, relation_refs_steps(*vocab, s@, p@, ids@, edge@)),
{
    proof {
        reveal(relation_refs_steps);
    }
    let ghost f = relation_ref_at(*vocab, s@, p@, ids@, edge@);
    let mut i: usize = 0;
    while i < ids.len()
        invariant
            i <= ids@.len(),
            f == relation_ref_at(*vocab, s@, p@, ids@, edge@),
            sink.wf(),
            wrote(*old(sink), *sink, each(i as nat, f)),
        decreases ids@.len() - i,
    {
        proof {
            assert(each((i + 1) as nat, f) == each(i as nat, f) + f(i as int));
        }
        let r = emit_relation_ref(sink, vocab, s, p, ids[i], edge);
        if r.is_err() {
            proof {
                reveal(relation_refs_steps);
                lemma_each_stops((i + 1) as nat, ids@.len(), f);
            }
            return r;
        }
        i += 1;
    }
    Ok(())
}

} // verus!
