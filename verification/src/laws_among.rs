//! Which triples are among the steps of an emitter, piece by piece.
use crate::cells::{
    class_ref_at, class_ref_steps, class_refs_steps, inside_if_steps, inside_steps, mark_steps,
    nonempty_steps, opt_class_ref_steps, opt_instant_steps, opt_integer_steps, opt_json_steps,
    opt_relation_ref_steps, opt_text_steps, relation_ref_at, relation_ref_steps,
    relation_refs_steps, text_at, texts_steps,
};
use crate::json::{json_compact, Json};
use crate::literals::{flag_literal, instant_literal, integer_literal, text_literal};
use crate::names::Names;
use crate::steps::{each, emitted, nothing, one, refusal, stop_if, Step};
use crate::term::{link, says, TripleView};
use crate::time::DateTime;
use crate::uuid::Uuid;
use crate::vocabulary::Vocabulary;
use vstd::prelude::*;

verus! {

/// A triple is among those of a list of steps.
#[verifier::opaque]
pub open spec fn among(steps: Seq<Step>, t: TripleView) -> bool {
    exists|i: int| 0 <= i < steps.len() && #[trigger] steps[i] == Step::Emit(t)
}

/// What is written is among the steps, and all of it is where nothing is refused.
pub proof fn lemma_written(steps: Seq<Step>, t: TripleView)
    ensures
        emitted(steps).contains(t) ==> among(steps, t),
        refusal(steps) is None && among(steps, t) ==> emitted(steps).contains(t),
    decreases steps.len(),
{
    reveal(among);
    reveal(emitted);
    reveal(refusal);
    if steps.len() > 0 {
        let before = steps.drop_last();
        lemma_written(before, t);
        assert(steps.last() == steps[steps.len() - 1]);
        if emitted(steps).contains(t) {
            let i = choose|i: int| 0 <= i < emitted(steps).len() && emitted(steps)[i] == t;
            if i < emitted(before).len() {
                assert(emitted(before)[i] == t);
                let j = choose|j: int| 0 <= j < before.len() && #[trigger] before[j] == Step::Emit(t);
                assert(steps[j] == before[j]);
            }
        }
        if refusal(steps) is None && among(steps, t) {
            let j = choose|j: int| 0 <= j < steps.len() && #[trigger] steps[j] == Step::Emit(t);
            if j < before.len() {
                assert(before[j] == steps[j]);
                let i = choose|i: int| 0 <= i < emitted(before).len() && emitted(before)[i] == t;
                assert(emitted(steps)[i] == t);
            } else {
                assert(emitted(steps)[emitted(before).len() as int] == t);
            }
        }
    }
}

pub broadcast proof fn lemma_among_concat(a: Seq<Step>, b: Seq<Step>, t: TripleView)
    ensures
        #[trigger] among(a + b, t) <==> among(a, t) || among(b, t),
{
    reveal(among);
    if among(a, t) {
        let i = choose|i: int| 0 <= i < a.len() && #[trigger] a[i] == Step::Emit(t);
        assert((a + b)[i] == a[i]);
    }
    if among(b, t) {
        let i = choose|i: int| 0 <= i < b.len() && #[trigger] b[i] == Step::Emit(t);
        assert((a + b)[a.len() + i] == b[i]);
    }
    if among(a + b, t) {
        let i = choose|i: int| 0 <= i < (a + b).len() && #[trigger] (a + b)[i] == Step::Emit(t);
        if i < a.len() {
            assert(a[i] == Step::Emit(t));
        } else {
            assert(b[i - a.len()] == Step::Emit(t));
        }
    }
}

pub broadcast proof fn lemma_among_one(u: TripleView, t: TripleView)
    ensures
        #[trigger] among(one(u), t) <==> t == u,
{
    reveal(among);
    reveal(one);
    assert(one(u)[0] == Step::Emit(u));
}

pub broadcast proof fn lemma_among_nothing(t: TripleView)
    ensures
        !#[trigger] among(nothing(), t),
{
    reveal(among);
}

pub broadcast proof fn lemma_among_stop(c: bool, message: Seq<char>, t: TripleView)
    ensures
        !#[trigger] among(stop_if(c, message), t),
{
    reveal(among);
    reveal(stop_if);
}

/// A triple among the steps of each number is among those of one of them.
pub broadcast proof fn lemma_among_each(n: nat, f: spec_fn(int) -> Seq<Step>, t: TripleView)
    ensures
        #[trigger] among(each(n, f), t) <==> exists|i: int| 0 <= i < n && among(#[trigger] f(i), t),
    decreases n,
{
    if n > 0 {
        let k = (n - 1) as nat;
        lemma_among_each(k, f, t);
        lemma_among_concat(each(k, f), f(n - 1), t);
        if among(f(n - 1), t) {
            assert(0 <= n - 1 < n && among(f(n - 1), t));
        }
    } else {
        lemma_among_nothing(t);
    }
}

pub broadcast group group_among {
    lemma_among_concat,
    lemma_among_one,
    lemma_among_nothing,
    lemma_among_stop,
}

// ---- Cells ----

pub broadcast proof fn lemma_among_inside(
    names: Names,
    ref_kb: Option<Uuid>,
    edge: Seq<char>,
    t: TripleView,
)
    ensures
        !#[trigger] among(inside_steps(names, ref_kb, edge), t),
{
    broadcast use group_among;

    reveal(inside_steps);
}

pub broadcast proof fn lemma_among_inside_if(
    names: Names,
    id: Option<Uuid>,
    ref_kb: Option<Uuid>,
    edge: Seq<char>,
    t: TripleView,
)
    ensures
        !#[trigger] among(inside_if_steps(names, id, ref_kb, edge), t),
{
    broadcast use {group_among, lemma_among_inside};

    reveal(inside_if_steps);
}

pub broadcast proof fn lemma_among_opt_text(
    s: Seq<char>,
    p: Seq<char>,
    o: Option<String>,
    t: TripleView,
)
    ensures
        #[trigger] among(opt_text_steps(s, p, o), t) <==> o is Some && t == says(
            s,
            p,
            text_literal(o->0@),
        ),
{
    broadcast use group_among;

    reveal(opt_text_steps);
}

pub broadcast proof fn lemma_among_nonempty(s: Seq<char>, p: Seq<char>, o: String, t: TripleView)
    ensures
        #[trigger] among(nonempty_steps(s, p, o), t) <==> o@.len() > 0 && t == says(
            s,
            p,
            text_literal(o@),
        ),
{
    broadcast use group_among;

    reveal(nonempty_steps);
}

pub broadcast proof fn lemma_among_opt_instant(
    s: Seq<char>,
    p: Seq<char>,
    o: Option<DateTime>,
    t: TripleView,
)
    ensures
        #[trigger] among(opt_instant_steps(s, p, o), t) <==> o is Some && t == says(
            s,
            p,
            instant_literal(o->0),
        ),
{
    broadcast use group_among;

    reveal(opt_instant_steps);
}

pub broadcast proof fn lemma_among_opt_integer(
    s: Seq<char>,
    p: Seq<char>,
    o: Option<i32>,
    t: TripleView,
)
    ensures
        #[trigger] among(opt_integer_steps(s, p, o), t) <==> o is Some && t == says(
            s,
            p,
            integer_literal(o->0 as int),
        ),
{
    broadcast use group_among;

    reveal(opt_integer_steps);
}

pub broadcast proof fn lemma_among_opt_json(
    s: Seq<char>,
    p: Seq<char>,
    o: Option<Json>,
    t: TripleView,
)
    ensures
        #[trigger] among(opt_json_steps(s, p, o), t) <==> o is Some && t == says(
            s,
            p,
            text_literal(json_compact(o->0@)),
        ),
{
    broadcast use group_among;

    reveal(opt_json_steps);
}

pub broadcast proof fn lemma_among_mark(s: Seq<char>, p: Seq<char>, o: bool, t: TripleView)
    ensures
        #[trigger] among(mark_steps(s, p, o), t) <==> o && t == says(s, p, flag_literal(true)),
{
    broadcast use group_among;

    reveal(mark_steps);
}

pub broadcast proof fn lemma_among_texts(
    s: Seq<char>,
    p: Seq<char>,
    texts: Seq<String>,
    t: TripleView,
)
    ensures
        #[trigger] among(texts_steps(s, p, texts), t) <==> exists|i: int|
            0 <= i < texts.len() && t == says(s, p, text_literal((#[trigger] texts[i])@)),
{
    broadcast use group_among;

    reveal(texts_steps);
    let f = text_at(s, p, texts);
    lemma_among_each(texts.len(), f, t);
    if exists|i: int| 0 <= i < texts.len() && t == says(s, p, text_literal((#[trigger] texts[i])@)) {
        let i = choose|i: int|
            0 <= i < texts.len() && t == says(s, p, text_literal((#[trigger] texts[i])@));
        assert(among(f(i), t));
    }
    if exists|i: int| 0 <= i < texts.len() && among(#[trigger] f(i), t) {
        let i = choose|i: int| 0 <= i < texts.len() && among(#[trigger] f(i), t);
        assert(t == says(s, p, text_literal(texts[i]@)));
    }
}

pub broadcast proof fn lemma_among_class_ref(
    vocab: Vocabulary,
    s: Seq<char>,
    p: Seq<char>,
    id: Uuid,
    edge: Seq<char>,
    t: TripleView,
)
    ensures
        #[trigger] among(class_ref_steps(vocab, s, p, id, edge), t) <==> vocab.class_iri(id) is Some
            && t == link(s, p, vocab.class_iri(id)->0),
{
    broadcast use group_among;

    reveal(class_ref_steps);
}

pub broadcast proof fn lemma_among_relation_ref(
    vocab: Vocabulary,
    s: Seq<char>,
    p: Seq<char>,
    id: Uuid,
    edge: Seq<char>,
    t: TripleView,
)
    ensures
        #[trigger] among(relation_ref_steps(vocab, s, p, id, edge), t) <==> vocab.relation_iri(
            id,
        ) is Some && t == link(s, p, vocab.relation_iri(id)->0),
{
    broadcast use group_among;

    reveal(relation_ref_steps);
}

pub broadcast proof fn lemma_among_opt_class_ref(
    vocab: Vocabulary,
    s: Seq<char>,
    p: Seq<char>,
    id: Option<Uuid>,
    edge: Seq<char>,
    t: TripleView,
)
    ensures
        #[trigger] among(opt_class_ref_steps(vocab, s, p, id, edge), t) <==> id is Some
            && vocab.class_iri(id->0) is Some && t == link(s, p, vocab.class_iri(id->0)->0),
{
    broadcast use {group_among, lemma_among_class_ref};

    reveal(opt_class_ref_steps);
}

pub broadcast proof fn lemma_among_opt_relation_ref(
    vocab: Vocabulary,
    s: Seq<char>,
    p: Seq<char>,
    id: Option<Uuid>,
    edge: Seq<char>,
    t: TripleView,
)
    ensures
        #[trigger] among(opt_relation_ref_steps(vocab, s, p, id, edge), t) <==> id is Some
            && vocab.relation_iri(id->0) is Some && t == link(s, p, vocab.relation_iri(id->0)->0),
{
    broadcast use {group_among, lemma_among_relation_ref};

    reveal(opt_relation_ref_steps);
}

pub broadcast proof fn lemma_among_class_refs(
    vocab: Vocabulary,
    s: Seq<char>,
    p: Seq<char>,
    ids: Seq<Uuid>,
    edge: Seq<char>,
    t: TripleView,
)
    ensures
        #[trigger] among(class_refs_steps(vocab, s, p, ids, edge), t) <==> exists|i: int|
            0 <= i < ids.len() && vocab.class_iri(#[trigger] ids[i]) is Some && t == link(
                s,
                p,
                vocab.class_iri(ids[i])->0,
            ),
{
    broadcast use {group_among, lemma_among_class_ref};

    reveal(class_refs_steps);
    let f = class_ref_at(vocab, s, p, ids, edge);
    lemma_among_each(ids.len(), f, t);
    if exists|i: int|
        0 <= i < ids.len() && vocab.class_iri(#[trigger] ids[i]) is Some && t == link(
            s,
            p,
            vocab.class_iri(ids[i])->0,
        ) {
        let i = choose|i: int|
            0 <= i < ids.len() && vocab.class_iri(#[trigger] ids[i]) is Some && t == link(
                s,
                p,
                vocab.class_iri(ids[i])->0,
            );
        assert(among(f(i), t));
    }
    if exists|i: int| 0 <= i < ids.len() && among(#[trigger] f(i), t) {
        let i = choose|i: int| 0 <= i < ids.len() && among(#[trigger] f(i), t);
        assert(vocab.class_iri(ids[i]) is Some);
    }
}

pub broadcast proof fn lemma_among_relation_refs(
    vocab: Vocabulary,
    s: Seq<char>,
    p: Seq<char>,
    ids: Seq<Uuid>,
    edge: Seq<char>,
    t: TripleView,
)
    ensures
        #[trigger] among(relation_refs_steps(vocab, s, p, ids, edge), t) <==> exists|i: int|
            0 <= i < ids.len() && vocab.relation_iri(#[trigger] ids[i]) is Some && t == link(
                s,
                p,
                vocab.relation_iri(ids[i])->0,
            ),
{
    broadcast use {group_among, lemma_among_relation_ref};

    reveal(relation_refs_steps);
    let f = relation_ref_at(vocab, s, p, ids, edge);
    lemma_among_each(ids.len(), f, t);
    if exists|i: int|
        0 <= i < ids.len() && vocab.relation_iri(#[trigger] ids[i]) is Some && t == link(
            s,
            p,
            vocab.relation_iri(ids[i])->0,
        ) {
        let i = choose|i: int|
            0 <= i < ids.len() && vocab.relation_iri(#[trigger] ids[i]) is Some && t == link(
                s,
                p,
                vocab.relation_iri(ids[i])->0,
            );
        assert(among(f(i), t));
    }
    if exists|i: int| 0 <= i < ids.len() && among(#[trigger] f(i), t) {
        let i = choose|i: int| 0 <= i < ids.len() && among(#[trigger] f(i), t);
        assert(vocab.relation_iri(ids[i]) is Some);
    }
}

pub broadcast group group_among_cells {
    lemma_among_concat,
    lemma_among_one,
    lemma_among_nothing,
    lemma_among_stop,
    lemma_among_inside,
    lemma_among_inside_if,
    lemma_among_opt_text,
    lemma_among_nonempty,
    lemma_among_opt_instant,
    lemma_among_opt_integer,
    lemma_among_opt_json,
    lemma_among_mark,
    lemma_among_texts,
    lemma_among_class_ref,
    lemma_among_relation_ref,
    lemma_among_opt_class_ref,
    lemma_among_opt_relation_ref,
    lemma_among_class_refs,
    lemma_among_relation_refs,
}

} // verus!
