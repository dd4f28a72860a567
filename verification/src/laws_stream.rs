//! What holds of files: how rows are cut into pages, and when bytes are taken out, makes no
//! difference.
use crate::export::{
    attribute_rule_row_at, chunk_row_at, class_row_at, derived_row_at, document_row_at,
    docversion_row_at, entity_row_at, evidence_row_at, fact_row_at, page_steps, relation_row_at,
    rule_row_at, Page,
};
use crate::names::Names;
use crate::sink::{closing_bytes, Sink};
use crate::steps::{each, nothing, Step};
use crate::time::DateTime;
use crate::vocabulary::Vocabulary;
use vstd::prelude::*;

verus! {

proof fn lemma_each_joined(
    n: nat,
    f: spec_fn(int) -> Seq<Step>,
    m: nat,
    g: spec_fn(int) -> Seq<Step>,
    h: spec_fn(int) -> Seq<Step>,
)
    requires
        forall|i: int| 0 <= i < n ==> #[trigger] f(i) == h(i),
        forall|i: int| 0 <= i < m ==> #[trigger] g(i) == h(n + i),
    ensures
        each(n + m, h) == each(n, f) + each(m, g),
    decreases n + m,
{
    if m > 0 {
        let k = (m - 1) as nat;
        lemma_each_joined(n, f, k, g, h);
        assert(g(m - 1) == h(n + (m - 1)));
        assert(each(n + m, h) == each(n + k, h) + h(n + m - 1));
        assert(each(n, f) + (each(k, g) + g(m - 1)) =~= (each(n, f) + each(k, g)) + g(m - 1));
    } else if n > 0 {
        lemma_each_joined((n - 1) as nat, f, 0, g, h);
        assert(f(n - 1) == h(n - 1));
        assert(each((n - 1) as nat, f) + nothing() =~= each((n - 1) as nat, f));
        assert(each(n, f) + nothing() =~= each(n, f));
    } else {
        assert(nothing() + nothing() =~= nothing());
    }
}

/// One page holds the rows of two pages of a table, one behind the other.
pub open spec fn joined(x: Page, y: Page, xy: Page) -> bool {
    match (x, y, xy) {
        (Page::Classes(a), Page::Classes(b), Page::Classes(c)) => c@ == a@ + b@,
        (Page::Relations(a), Page::Relations(b), Page::Relations(c)) => c@ == a@ + b@,
        (Page::Rules(a), Page::Rules(b), Page::Rules(c)) => c@ == a@ + b@,
        (Page::AttributeRules(a), Page::AttributeRules(b), Page::AttributeRules(c)) => c@ == a@ + b@,
        (Page::Documents(a), Page::Documents(b), Page::Documents(c)) => c@ == a@ + b@,
        (Page::DocumentVersions(a), Page::DocumentVersions(b), Page::DocumentVersions(c)) => c@ == a@
            + b@,
        (Page::Chunks(a), Page::Chunks(b), Page::Chunks(c)) => c@ == a@ + b@,
        (Page::Entities(a), Page::Entities(b), Page::Entities(c)) => c@ == a@ + b@,
        (Page::Facts(a), Page::Facts(b), Page::Facts(c)) => c@ == a@ + b@,
        (Page::Evidence(a), Page::Evidence(b), Page::Evidence(c)) => c@ == a@ + b@,
        (Page::Derived(a), Page::Derived(b), Page::Derived(c)) => c@ == a@ + b@,
        _ => false,
    }
}

/// Where a table is cut into pages makes no difference to what is written.
pub proof fn page_boundaries_make_no_difference(
    names: Names,
    vocab: Vocabulary,
    now: DateTime,
    x: Page,
    y: Page,
    xy: Page,
)
    requires
        joined(x, y, xy),
    ensures
        page_steps(names, vocab, xy, now) == page_steps(names, vocab, x, now) + page_steps(
            names,
            vocab,
            y,
            now,
        ),
{
    match (x, y, xy) {
        (Page::Classes(a), Page::Classes(b), Page::Classes(c)) => {
            lemma_each_joined(
                a@.len(),
                class_row_at(vocab, a@),
                b@.len(),
                class_row_at(vocab, b@),
                class_row_at(vocab, c@),
            );
        },
        (Page::Relations(a), Page::Relations(b), Page::Relations(c)) => {
            lemma_each_joined(
                a@.len(),
                relation_row_at(vocab, a@),
                b@.len(),
                relation_row_at(vocab, b@),
                relation_row_at(vocab, c@),
            );
        },
        (Page::Rules(a), Page::Rules(b), Page::Rules(c)) => {
            lemma_each_joined(
                a@.len(),
                rule_row_at(names, vocab, a@),
                b@.len(),
                rule_row_at(names, vocab, b@),
                rule_row_at(names, vocab, c@),
            );
        },
        (Page::AttributeRules(a), Page::AttributeRules(b), Page::AttributeRules(c)) => {
            lemma_each_joined(
                a@.len(),
                attribute_rule_row_at(names, vocab, a@),
                b@.len(),
                attribute_rule_row_at(names, vocab, b@),
                attribute_rule_row_at(names, vocab, c@),
            );
        },
        (Page::Documents(a), Page::Documents(b), Page::Documents(c)) => {
            lemma_each_joined(
                a@.len(),
                document_row_at(names, a@),
                b@.len(),
                document_row_at(names, b@),
                document_row_at(names, c@),
            );
        },
        (Page::DocumentVersions(a), Page::DocumentVersions(b), Page::DocumentVersions(c)) => {
            lemma_each_joined(
                a@.len(),
                docversion_row_at(names, a@),
                b@.len(),
                docversion_row_at(names, b@),
                docversion_row_at(names, c@),
            );
        },
        (Page::Chunks(a), Page::Chunks(b), Page::Chunks(c)) => {
            lemma_each_joined(
                a@.len(),
                chunk_row_at(names, a@),
                b@.len(),
                chunk_row_at(names, b@),
                chunk_row_at(names, c@),
            );
        },
        (Page::Entities(a), Page::Entities(b), Page::Entities(c)) => {
            lemma_each_joined(
                a@.len(),
                entity_row_at(names, vocab, a@),
                b@.len(),
                entity_row_at(names, vocab, b@),
                entity_row_at(names, vocab, c@),
            );
        },
        (Page::Facts(a), Page::Facts(b), Page::Facts(c)) => {
            lemma_each_joined(
                a@.len(),
                fact_row_at(names, vocab, now, a@),
                b@.len(),
                fact_row_at(names, vocab, now, b@),
                fact_row_at(names, vocab, now, c@),
            );
        },
        (Page::Evidence(a), Page::Evidence(b), Page::Evidence(c)) => {
            lemma_each_joined(
                a@.len(),
                evidence_row_at(names, a@),
                b@.len(),
                evidence_row_at(names, b@),
                evidence_row_at(names, c@),
            );
        },
        (Page::Derived(a), Page::Derived(b), Page::Derived(c)) => {
            lemma_each_joined(
                a@.len(),
                derived_row_at(names, vocab, a@),
                b@.len(),
                derived_row_at(names, vocab, b@),
                derived_row_at(names, vocab, c@),
            );
        },
        _ => {},
    }
}

/// When the bytes are taken out of a sink makes no difference to the file: two sinks that were told
/// the same end in the same bytes.
pub proof fn taking_out_makes_no_difference(s: Sink, t: Sink)
    requires
        s.wf(),
        t.wf(),
        s.told() == t.told(),
        s.lead() == t.lead(),
    ensures
        s.taken() + (s.pending() + closing_bytes(s.told())) == t.taken() + (t.pending()
            + closing_bytes(t.told())),
{
    let closing = closing_bytes(s.told());
    assert(s.taken() + (s.pending() + closing) =~= (s.taken() + s.pending()) + closing);
    assert(t.taken() + (t.pending() + closing) =~= (t.taken() + t.pending()) + closing);
}

// ---- The buffer over many calls ----

/// A call on a buffer: `write` with some bytes, or `take` with the bytes that it handed out.
pub enum BufferCall {
    Write(Seq<u8>),
    Take(Seq<u8>),
}

/// What a buffer holds after some calls, by the contracts of `write` and `take`.
pub open spec fn held(before: Seq<u8>, calls: Seq<BufferCall>) -> Seq<u8>
    decreases calls.len(),
{
    if calls.len() == 0 {
        before
    } else {
        match calls.last() {
            BufferCall::Write(bytes) => held(before, calls.drop_last()) + bytes,
            BufferCall::Take(_) => Seq::empty(),
        }
    }
}

/// Each `take` handed out what the buffer held, as its contract says.
pub open spec fn handed_out(before: Seq<u8>, calls: Seq<BufferCall>) -> bool
    decreases calls.len(),
{
    calls.len() > 0 ==> handed_out(before, calls.drop_last()) && (
    calls.last() matches BufferCall::Take(bytes) ==> bytes == held(before, calls.drop_last()))
}

/// All bytes that were written, in order.
pub open spec fn all_written(calls: Seq<BufferCall>) -> Seq<u8>
    decreases calls.len(),
{
    if calls.len() == 0 {
        Seq::empty()
    } else {
        match calls.last() {
            BufferCall::Write(bytes) => all_written(calls.drop_last()) + bytes,
            BufferCall::Take(_) => all_written(calls.drop_last()),
        }
    }
}

/// All bytes that were taken, in order.
pub open spec fn all_taken(calls: Seq<BufferCall>) -> Seq<u8>
    decreases calls.len(),
{
    if calls.len() == 0 {
        Seq::empty()
    } else {
        match calls.last() {
            BufferCall::Write(_) => all_taken(calls.drop_last()),
            BufferCall::Take(bytes) => all_taken(calls.drop_last()) + bytes,
        }
    }
}

/// Whatever the calls on a buffer, what was taken and what it still holds are the bytes that were in
/// it and all that were written, in order: nothing is lost, repeated or moved. After a last `take`
/// nothing is left to be taken.
pub proof fn buffer_loses_nothing(before: Seq<u8>, calls: Seq<BufferCall>)
    requires
        handed_out(before, calls),
    ensures
        all_taken(calls) + held(before, calls) == before + all_written(calls),
        calls.len() > 0 && calls.last() is Take ==> all_taken(calls) == before + all_written(calls),
    decreases calls.len(),
{
    if calls.len() == 0 {
        assert(all_taken(calls) + before =~= before + all_written(calls));
    } else {
        let earlier = calls.drop_last();
        buffer_loses_nothing(before, earlier);
        match calls.last() {
            BufferCall::Write(bytes) => {
                assert(all_taken(calls) + held(before, calls) =~= (all_taken(earlier) + held(
                    before,
                    earlier,
                )) + bytes);
                assert((before + all_written(earlier)) + bytes =~= before + all_written(calls));
            },
            BufferCall::Take(bytes) => {
                assert(all_taken(calls) + held(before, calls) =~= all_taken(calls));
            },
        }
    }
}

/// A `take` right after another hands out nothing.
pub proof fn second_take_is_empty(before: Seq<u8>, calls: Seq<BufferCall>)
    requires
        handed_out(before, calls),
        calls.len() >= 2,
        calls[calls.len() - 2] is Take,
        calls.last() is Take,
    ensures
        calls.last() == BufferCall::Take(Seq::empty()),
{
    assert(calls.drop_last().last() == calls[calls.len() - 2]);
}

} // verus!
