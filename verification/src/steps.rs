//! What an emitter does, as a list of steps: triples to write, and rows at which it stops.
//!
//! Every emitter states its list. It writes the triples in order, and at the first refusal it
//! stops and says why; what stands behind a refusal is not written.
use crate::sink::Sink;
use crate::term::{link, says, LiteralView, TripleView};
use vstd::prelude::*;

verus! {

/// Why a row is not exported.
#[derive(Debug)]
pub struct Refused {
    pub message: String,
}

impl Refused {
    /// The message.
    pub fn to_string(&self) -> (out: String)
        ensures
            out@ == self.message@,
    {
        self.message.clone()
    }
}

/// One step of an emitter.
pub enum Step {
    Emit(TripleView),
    Refuse(Seq<char>),
}

/// The first refusal of a list of steps.
#[verifier::opaque]
pub open spec fn refusal(steps: Seq<Step>) -> Option<Seq<char>>
    decreases steps.len(),
{
    if steps.len() == 0 {
        None
    } else {
        match refusal(steps.drop_last()) {
            Some(message) => Some(message),
            None => match steps.last() {
                Step::Emit(_) => None,
                Step::Refuse(message) => Some(message),
            },
        }
    }
}

/// The triples in front of the first refusal.
#[verifier::opaque]
pub open spec fn emitted(steps: Seq<Step>) -> Seq<TripleView>
    decreases steps.len(),
{
    if steps.len() == 0 {
        Seq::empty()
    } else if refusal(steps.drop_last()) is Some {
        emitted(steps.drop_last())
    } else {
        match steps.last() {
            Step::Emit(t) => emitted(steps.drop_last()).push(t),
            Step::Refuse(_) => emitted(steps.drop_last()),
        }
    }
}

/// The triples `log` and behind them what a list of steps writes.
#[verifier::opaque]
pub open spec fn after(log: Seq<TripleView>, steps: Seq<Step>) -> Seq<TripleView> {
    log + emitted(steps)
}

/// An emitter took exactly these steps: the sink has grown by their triples, and the result names
/// their first refusal.
pub open spec fn took(
    before: Sink,
    now: Sink,
    result: Result<(), Refused>,
    steps: Seq<Step>,
) -> bool {
    &&& before.grown(now, after(before.triples(), steps))
    &&& match result {
        Ok(_) => refusal(steps) is None,
        Err(e) => refusal(steps) == Some(e.message@),
    }
}

/// An emitter that cannot stop took exactly these steps.
pub open spec fn wrote(before: Sink, now: Sink, steps: Seq<Step>) -> bool {
    &&& before.grown(now, after(before.triples(), steps))
    &&& refusal(steps) is None
}

/// A barrier in front of the triples of a row: it lets the emitter pass or stops it, and writes
/// nothing.
pub open spec fn barrier(result: Result<(), Refused>, steps: Seq<Step>) -> bool {
    &&& forall|log: Seq<TripleView>| #[trigger] after(log, steps) == log
    &&& match result {
        Ok(_) => refusal(steps) is None,
        Err(e) => refusal(steps) == Some(e.message@),
    }
}

/// No step.
pub open spec fn nothing() -> Seq<Step> {
    Seq::empty()
}

/// One triple.
#[verifier::opaque]
pub open spec fn one(t: TripleView) -> Seq<Step> {
    seq![Step::Emit(t)]
}

/// `s p o`, where `o` is a resource.
pub open spec fn res(s: Seq<char>, p: Seq<char>, o: Seq<char>) -> Seq<Step> {
    one(link(s, p, o))
}

/// `s p o`, where `o` is a literal.
pub open spec fn lit(s: Seq<char>, p: Seq<char>, o: LiteralView) -> Seq<Step> {
    one(says(s, p, o))
}

/// The steps, if the condition holds.
pub open spec fn only_if(condition: bool, steps: Seq<Step>) -> Seq<Step> {
    if condition {
        steps
    } else {
        nothing()
    }
}

/// Stop here, if the condition holds.
#[verifier::opaque]
pub open spec fn stop_if(condition: bool, message: Seq<char>) -> Seq<Step> {
    only_if(condition, seq![Step::Refuse(message)])
}

/// The steps of each number below `n`, one after the other.
pub open spec fn each(n: nat, f: spec_fn(int) -> Seq<Step>) -> Seq<Step>
    decreases n,
{
    if n == 0 {
        nothing()
    } else {
        each((n - 1) as nat, f) + f(n - 1)
    }
}

/// Two lists of steps one after the other: the second counts only if the first does not stop.
pub proof fn lemma_steps_concat(a: Seq<Step>, b: Seq<Step>)
    ensures
        refusal(a + b) == (if refusal(a) is Some {
            refusal(a)
        } else {
            refusal(b)
        }),
        emitted(a + b) == (if refusal(a) is Some {
            emitted(a)
        } else {
            emitted(a) + emitted(b)
        }),
    decreases b.len(),
{
    reveal(refusal);
    reveal(emitted);
    if b.len() == 0 {
        assert(a + b =~= a);
        assert(emitted(a) + emitted(b) =~= emitted(a));
    } else {
        lemma_steps_concat(a, b.drop_last());
        assert((a + b).drop_last() =~= a + b.drop_last());
        assert((a + b).last() == b.last());
        if refusal(a) is None && refusal(b.drop_last()) is None {
            match b.last() {
                Step::Emit(t) => {
                    assert(emitted(a) + emitted(b.drop_last()).push(t) =~= (emitted(a) + emitted(
                        b.drop_last(),
                    )).push(t));
                },
                Step::Refuse(_) => {},
            }
        }
    }
}

pub broadcast proof fn lemma_after_concat(log: Seq<TripleView>, a: Seq<Step>, b: Seq<Step>)
    ensures
        #[trigger] after(log, a + b) == (if refusal(a) is Some {
            after(log, a)
        } else {
            after(after(log, a), b)
        }),
{
    reveal(after);
    lemma_steps_concat(a, b);
    assert(log + (emitted(a) + emitted(b)) =~= (log + emitted(a)) + emitted(b));
}

pub broadcast proof fn lemma_refusal_concat(a: Seq<Step>, b: Seq<Step>)
    ensures
        #[trigger] refusal(a + b) == (if refusal(a) is Some {
            refusal(a)
        } else {
            refusal(b)
        }),
{
    lemma_steps_concat(a, b);
}

pub broadcast proof fn lemma_after_one(log: Seq<TripleView>, t: TripleView)
    ensures
        #[trigger] after(log, one(t)) == log.push(t),
        refusal(one(t)) is None,
{
    reveal(after);
    reveal(one);
    reveal_with_fuel(emitted, 2);
    reveal_with_fuel(refusal, 2);
    assert(one(t).drop_last() =~= Seq::<Step>::empty());
    assert(log + Seq::<TripleView>::empty().push(t) =~= log.push(t));
}

pub broadcast proof fn lemma_refusal_one(t: TripleView)
    ensures
        #[trigger] refusal(one(t)) is None,
{
    reveal(one);
    reveal_with_fuel(refusal, 2);
    assert(one(t).drop_last() =~= Seq::<Step>::empty());
}

pub broadcast proof fn lemma_after_nothing(log: Seq<TripleView>)
    ensures
        #[trigger] after(log, nothing()) == log,
        refusal(nothing()) is None,
{
    reveal(after);
    reveal(refusal);
    reveal(emitted);
    assert(log + Seq::<TripleView>::empty() =~= log);
}

pub broadcast proof fn lemma_refusal_nothing()
    ensures
        #[trigger] refusal(nothing()) is None,
{
    reveal(refusal);
}

/// Nothing to go through gives no step.
pub broadcast proof fn lemma_each_none(f: spec_fn(int) -> Seq<Step>)
    ensures
        #[trigger] each(0, f) == nothing(),
{
}

pub broadcast proof fn lemma_stop(log: Seq<TripleView>, message: Seq<char>)
    ensures
        #[trigger] after(log, stop_if(true, message)) == log,
        refusal(stop_if(true, message)) == Some(message),
{
    reveal(after);
    reveal(stop_if);
    reveal_with_fuel(emitted, 2);
    reveal_with_fuel(refusal, 2);
    assert(stop_if(true, message).drop_last() =~= Seq::<Step>::empty());
    assert(log + Seq::<TripleView>::empty() =~= log);
}

pub broadcast proof fn lemma_refusal_stop(message: Seq<char>)
    ensures
        #[trigger] refusal(stop_if(true, message)) == Some(message),
{
    reveal(stop_if);
    reveal_with_fuel(refusal, 2);
    assert(stop_if(true, message).drop_last() =~= Seq::<Step>::empty());
}

/// Where the first `n` of `m` lists of steps stop, all `m` stop at the same place.
pub proof fn lemma_each_stops(n: nat, m: nat, f: spec_fn(int) -> Seq<Step>)
    requires
        n <= m,
        refusal(each(n, f)) is Some,
    ensures
        refusal(each(m, f)) == refusal(each(n, f)),
        emitted(each(m, f)) == emitted(each(n, f)),
        forall|log: Seq<TripleView>| #[trigger] after(log, each(m, f)) == after(log, each(n, f)),
    decreases m,
{
    reveal(after);
    if n < m {
        lemma_each_stops(n, (m - 1) as nat, f);
        lemma_steps_concat(each((m - 1) as nat, f), f(m - 1));
    }
}

pub broadcast group group_steps {
    lemma_after_concat,
    lemma_refusal_concat,
    lemma_after_one,
    lemma_refusal_one,
    lemma_after_nothing,
    lemma_refusal_nothing,
    lemma_each_none,
    lemma_stop,
    lemma_refusal_stop,
}

} // verus!
