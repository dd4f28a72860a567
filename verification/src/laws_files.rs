//! What a page says: what its rows say, row by row, and why it is refused.
use crate::emit_derived::derived_steps;
use crate::emit_fact::fact_steps;
use crate::emit_ontology::{class_steps, relation_steps, rule_steps};
use crate::emit_rules::attribute_rule_steps;
use crate::emit_sources::{
    chunk_steps, document_steps, docversion_steps, entity_steps, evidence_steps,
};
use crate::export::{
    attribute_rule_row_at, chunk_row_at, class_row_at, derived_row_at, document_row_at,
    docversion_row_at, entity_row_at, evidence_row_at, fact_row_at, page_steps, relation_row_at,
    rule_row_at, Page,
};
use crate::laws_among::{among, lemma_among_each, lemma_written};
use crate::laws_messages::lemma_each_stop;
use crate::names::Names;
use crate::steps::{each, emitted, refusal, Step};
use crate::term::TripleView;
use crate::time::DateTime;
use crate::vocabulary::Vocabulary;
use vstd::prelude::*;

verus! {

proof fn lemma_rows(n: nat, f: spec_fn(int) -> Seq<Step>, t: TripleView)
    ensures
        emitted(each(n, f)).contains(t) ==> exists|i: int| 0 <= i < n && among(#[trigger] f(i), t),
        refusal(each(n, f)) is None ==> (emitted(each(n, f)).contains(t) <==> exists|i: int|
            0 <= i < n && emitted(#[trigger] f(i)).contains(t)),
{
    lemma_written(each(n, f), t);
    lemma_among_each(n, f, t);
    lemma_each_stop(n, f);
    assert forall|i: int| 0 <= i < n && refusal(each(n, f)) is None implies (emitted(
        #[trigger] f(i),
    ).contains(t) <==> among(f(i), t)) by {
        assert(refusal(f(i)) is None);
        lemma_written(f(i), t);
    }
}

/// A page that is not refused writes exactly what its rows write, every row of it and each as the
/// kind of row that it is.
pub proof fn page_says_what_its_rows_say(
    names: Names,
    vocab: Vocabulary,
    page: Page,
    now: DateTime,
    t: TripleView,
)
    requires
        refusal(page_steps(names, vocab, page, now)) is None,
    ensures
        emitted(page_steps(names, vocab, page, now)).contains(t) <==> match page {
            Page::Classes(rows) => exists|i: int|
                #![trigger rows@[i]]
                0 <= i < rows@.len() && emitted(class_steps(vocab, rows@[i])).contains(t),
            Page::Relations(rows) => exists|i: int|
                #![trigger rows@[i]]
                0 <= i < rows@.len() && emitted(relation_steps(vocab, rows@[i])).contains(t),
            Page::Rules(rows) => exists|i: int|
                #![trigger rows@[i]]
                0 <= i < rows@.len() && emitted(rule_steps(names, vocab, rows@[i])).contains(t),
            Page::AttributeRules(rows) => exists|i: int|
                #![trigger rows@[i]]
                0 <= i < rows@.len() && emitted(attribute_rule_steps(names, vocab, rows@[i])).contains(t),
            Page::Documents(rows) => exists|i: int|
                #![trigger rows@[i]]
                0 <= i < rows@.len() && emitted(document_steps(names, rows@[i])).contains(t),
            Page::DocumentVersions(rows) => exists|i: int|
                #![trigger rows@[i]]
                0 <= i < rows@.len() && emitted(docversion_steps(names, rows@[i])).contains(t),
            Page::Chunks(rows) => exists|i: int|
                #![trigger rows@[i]]
                0 <= i < rows@.len() && emitted(chunk_steps(names, rows@[i])).contains(t),
            Page::Entities(rows) => exists|i: int|
                #![trigger rows@[i]]
                0 <= i < rows@.len() && emitted(entity_steps(names, vocab, rows@[i])).contains(t),
            Page::Facts(rows) => exists|i: int|
                #![trigger rows@[i]]
                0 <= i < rows@.len() && emitted(fact_steps(names, vocab, rows@[i], now)).contains(t),
            Page::Evidence(rows) => exists|i: int|
                #![trigger rows@[i]]
                0 <= i < rows@.len() && emitted(evidence_steps(names, rows@[i])).contains(t),
            Page::Derived(rows) => exists|i: int|
                #![trigger rows@[i]]
                0 <= i < rows@.len() && emitted(derived_steps(names, vocab, rows@[i])).contains(t),
        },
{
    match page {
        Page::Classes(rows) => {
            let f = class_row_at(vocab, rows@);
            lemma_rows(rows@.len(), f, t);
            if exists|i: int|
                #![trigger rows@[i]]
                0 <= i < rows@.len() && emitted(class_steps(vocab, rows@[i])).contains(t) {
                let i = choose|i: int|
                    #![trigger rows@[i]]
                    0 <= i < rows@.len() && emitted(class_steps(vocab, rows@[i])).contains(t);
                assert(emitted(f(i)).contains(t));
            }
            if exists|i: int| 0 <= i < rows@.len() && emitted(#[trigger] f(i)).contains(t) {
                let i = choose|i: int| 0 <= i < rows@.len() && emitted(#[trigger] f(i)).contains(t);
                assert(emitted(class_steps(vocab, rows@[i])).contains(t));
            }
        },
        Page::Relations(rows) => {
            let f = relation_row_at(vocab, rows@);
            lemma_rows(rows@.len(), f, t);
            if exists|i: int|
                #![trigger rows@[i]]
                0 <= i < rows@.len() && emitted(relation_steps(vocab, rows@[i])).contains(t) {
                let i = choose|i: int|
                    #![trigger rows@[i]]
                    0 <= i < rows@.len() && emitted(relation_steps(vocab, rows@[i])).contains(t);
                assert(emitted(f(i)).contains(t));
            }
            if exists|i: int| 0 <= i < rows@.len() && emitted(#[trigger] f(i)).contains(t) {
                let i = choose|i: int| 0 <= i < rows@.len() && emitted(#[trigger] f(i)).contains(t);
                assert(emitted(relation_steps(vocab, rows@[i])).contains(t));
            }
        },
        Page::Rules(rows) => {
            let f = rule_row_at(names, vocab, rows@);
            lemma_rows(rows@.len(), f, t);
            if exists|i: int|
                #![trigger rows@[i]]
                0 <= i < rows@.len() && emitted(rule_steps(names, vocab, rows@[i])).contains(t) {
                let i = choose|i: int|
                    #![trigger rows@[i]]
                    0 <= i < rows@.len() && emitted(rule_steps(names, vocab, rows@[i])).contains(t);
                assert(emitted(f(i)).contains(t));
            }
            if exists|i: int| 0 <= i < rows@.len() && emitted(#[trigger] f(i)).contains(t) {
                let i = choose|i: int| 0 <= i < rows@.len() && emitted(#[trigger] f(i)).contains(t);
                assert(emitted(rule_steps(names, vocab, rows@[i])).contains(t));
            }
        },
        Page::AttributeRules(rows) => {
            let f = attribute_rule_row_at(names, vocab, rows@);
            lemma_rows(rows@.len(), f, t);
            if exists|i: int|
                #![trigger rows@[i]]
                0 <= i < rows@.len() && emitted(attribute_rule_steps(names, vocab, rows@[i])).contains(t) {
                let i = choose|i: int|
                    #![trigger rows@[i]]
                    0 <= i < rows@.len() && emitted(attribute_rule_steps(names, vocab, rows@[i])).contains(t);
                assert(emitted(f(i)).contains(t));
            }
            if exists|i: int| 0 <= i < rows@.len() && emitted(#[trigger] f(i)).contains(t) {
                let i = choose|i: int| 0 <= i < rows@.len() && emitted(#[trigger] f(i)).contains(t);
                assert(emitted(attribute_rule_steps(names, vocab, rows@[i])).contains(t));
            }
        },
        Page::Documents(rows) => {
            let f = document_row_at(names, rows@);
            lemma_rows(rows@.len(), f, t);
            if exists|i: int|
                #![trigger rows@[i]]
                0 <= i < rows@.len() && emitted(document_steps(names, rows@[i])).contains(t) {
                let i = choose|i: int|
                    #![trigger rows@[i]]
                    0 <= i < rows@.len() && emitted(document_steps(names, rows@[i])).contains(t);
                assert(emitted(f(i)).contains(t));
            }
            if exists|i: int| 0 <= i < rows@.len() && emitted(#[trigger] f(i)).contains(t) {
                let i = choose|i: int| 0 <= i < rows@.len() && emitted(#[trigger] f(i)).contains(t);
                assert(emitted(document_steps(names, rows@[i])).contains(t));
            }
        },
        Page::DocumentVersions(rows) => {
            let f = docversion_row_at(names, rows@);
            lemma_rows(rows@.len(), f, t);
            if exists|i: int|
                #![trigger rows@[i]]
                0 <= i < rows@.len() && emitted(docversion_steps(names, rows@[i])).contains(t) {
                let i = choose|i: int|
                    #![trigger rows@[i]]
                    0 <= i < rows@.len() && emitted(docversion_steps(names, rows@[i])).contains(t);
                assert(emitted(f(i)).contains(t));
            }
            if exists|i: int| 0 <= i < rows@.len() && emitted(#[trigger] f(i)).contains(t) {
                let i = choose|i: int| 0 <= i < rows@.len() && emitted(#[trigger] f(i)).contains(t);
                assert(emitted(docversion_steps(names, rows@[i])).contains(t));
            }
        },
        Page::Chunks(rows) => {
            let f = chunk_row_at(names, rows@);
            lemma_rows(rows@.len(), f, t);
            if exists|i: int|
                #![trigger rows@[i]]
                0 <= i < rows@.len() && emitted(chunk_steps(names, rows@[i])).contains(t) {
                let i = choose|i: int|
                    #![trigger rows@[i]]
                    0 <= i < rows@.len() && emitted(chunk_steps(names, rows@[i])).contains(t);
                assert(emitted(f(i)).contains(t));
            }
            if exists|i: int| 0 <= i < rows@.len() && emitted(#[trigger] f(i)).contains(t) {
                let i = choose|i: int| 0 <= i < rows@.len() && emitted(#[trigger] f(i)).contains(t);
                assert(emitted(chunk_steps(names, rows@[i])).contains(t));
            }
        },
        Page::Entities(rows) => {
            let f = entity_row_at(names, vocab, rows@);
            lemma_rows(rows@.len(), f, t);
            if exists|i: int|
                #![trigger rows@[i]]
                0 <= i < rows@.len() && emitted(entity_steps(names, vocab, rows@[i])).contains(t) {
                let i = choose|i: int|
                    #![trigger rows@[i]]
                    0 <= i < rows@.len() && emitted(entity_steps(names, vocab, rows@[i])).contains(t);
                assert(emitted(f(i)).contains(t));
            }
            if exists|i: int| 0 <= i < rows@.len() && emitted(#[trigger] f(i)).contains(t) {
                let i = choose|i: int| 0 <= i < rows@.len() && emitted(#[trigger] f(i)).contains(t);
                assert(emitted(entity_steps(names, vocab, rows@[i])).contains(t));
            }
        },
        Page::Facts(rows) => {
            let f = fact_row_at(names, vocab, now, rows@);
            lemma_rows(rows@.len(), f, t);
            if exists|i: int|
                #![trigger rows@[i]]
                0 <= i < rows@.len() && emitted(fact_steps(names, vocab, rows@[i], now)).contains(t) {
                let i = choose|i: int|
                    #![trigger rows@[i]]
                    0 <= i < rows@.len() && emitted(fact_steps(names, vocab, rows@[i], now)).contains(t);
                assert(emitted(f(i)).contains(t));
            }
            if exists|i: int| 0 <= i < rows@.len() && emitted(#[trigger] f(i)).contains(t) {
                let i = choose|i: int| 0 <= i < rows@.len() && emitted(#[trigger] f(i)).contains(t);
                assert(emitted(fact_steps(names, vocab, rows@[i], now)).contains(t));
            }
        },
        Page::Evidence(rows) => {
            let f = evidence_row_at(names, rows@);
            lemma_rows(rows@.len(), f, t);
            if exists|i: int|
                #![trigger rows@[i]]
                0 <= i < rows@.len() && emitted(evidence_steps(names, rows@[i])).contains(t) {
                let i = choose|i: int|
                    #![trigger rows@[i]]
                    0 <= i < rows@.len() && emitted(evidence_steps(names, rows@[i])).contains(t);
                assert(emitted(f(i)).contains(t));
            }
            if exists|i: int| 0 <= i < rows@.len() && emitted(#[trigger] f(i)).contains(t) {
                let i = choose|i: int| 0 <= i < rows@.len() && emitted(#[trigger] f(i)).contains(t);
                assert(emitted(evidence_steps(names, rows@[i])).contains(t));
            }
        },
        Page::Derived(rows) => {
            let f = derived_row_at(names, vocab, rows@);
            lemma_rows(rows@.len(), f, t);
            if exists|i: int|
                #![trigger rows@[i]]
                0 <= i < rows@.len() && emitted(derived_steps(names, vocab, rows@[i])).contains(t) {
                let i = choose|i: int|
                    #![trigger rows@[i]]
                    0 <= i < rows@.len() && emitted(derived_steps(names, vocab, rows@[i])).contains(t);
                assert(emitted(f(i)).contains(t));
            }
            if exists|i: int| 0 <= i < rows@.len() && emitted(#[trigger] f(i)).contains(t) {
                let i = choose|i: int| 0 <= i < rows@.len() && emitted(#[trigger] f(i)).contains(t);
                assert(emitted(derived_steps(names, vocab, rows@[i])).contains(t));
            }
        },
    }
}

/// A page is refused exactly if one of its rows is, and says what that row says.
pub proof fn page_is_refused_for_a_row(
    names: Names,
    vocab: Vocabulary,
    page: Page,
    now: DateTime,
)
    ensures
        ({
            let why = refusal(page_steps(names, vocab, page, now));
            match page {
                Page::Classes(rows) => {
                    &&& why is None <==> forall|i: int|
                        #![trigger rows@[i]]
                        0 <= i < rows@.len() ==> refusal(class_steps(vocab, rows@[i])) is None
                    &&& why is Some ==> exists|i: int|
                        #![trigger rows@[i]]
                        0 <= i < rows@.len() && refusal(class_steps(vocab, rows@[i])) == why
                },
                Page::Relations(rows) => {
                    &&& why is None <==> forall|i: int|
                        #![trigger rows@[i]]
                        0 <= i < rows@.len() ==> refusal(relation_steps(vocab, rows@[i])) is None
                    &&& why is Some ==> exists|i: int|
                        #![trigger rows@[i]]
                        0 <= i < rows@.len() && refusal(relation_steps(vocab, rows@[i])) == why
                },
                Page::Rules(rows) => {
                    &&& why is None <==> forall|i: int|
                        #![trigger rows@[i]]
                        0 <= i < rows@.len() ==> refusal(rule_steps(names, vocab, rows@[i])) is None
                    &&& why is Some ==> exists|i: int|
                        #![trigger rows@[i]]
                        0 <= i < rows@.len() && refusal(rule_steps(names, vocab, rows@[i])) == why
                },
                Page::AttributeRules(rows) => {
                    &&& why is None <==> forall|i: int|
                        #![trigger rows@[i]]
                        0 <= i < rows@.len() ==> refusal(attribute_rule_steps(names, vocab, rows@[i])) is None
                    &&& why is Some ==> exists|i: int|
                        #![trigger rows@[i]]
                        0 <= i < rows@.len() && refusal(attribute_rule_steps(names, vocab, rows@[i])) == why
                },
                Page::Documents(rows) => {
                    &&& why is None <==> forall|i: int|
                        #![trigger rows@[i]]
                        0 <= i < rows@.len() ==> refusal(document_steps(names, rows@[i])) is None
                    &&& why is Some ==> exists|i: int|
                        #![trigger rows@[i]]
                        0 <= i < rows@.len() && refusal(document_steps(names, rows@[i])) == why
                },
                Page::DocumentVersions(rows) => {
                    &&& why is None <==> forall|i: int|
                        #![trigger rows@[i]]
                        0 <= i < rows@.len() ==> refusal(docversion_steps(names, rows@[i])) is None
                    &&& why is Some ==> exists|i: int|
                        #![trigger rows@[i]]
                        0 <= i < rows@.len() && refusal(docversion_steps(names, rows@[i])) == why
                },
                Page::Chunks(rows) => {
                    &&& why is None <==> forall|i: int|
                        #![trigger rows@[i]]
                        0 <= i < rows@.len() ==> refusal(chunk_steps(names, rows@[i])) is None
                    &&& why is Some ==> exists|i: int|
                        #![trigger rows@[i]]
                        0 <= i < rows@.len() && refusal(chunk_steps(names, rows@[i])) == why
                },
                Page::Entities(rows) => {
                    &&& why is None <==> forall|i: int|
                        #![trigger rows@[i]]
                        0 <= i < rows@.len() ==> refusal(entity_steps(names, vocab, rows@[i])) is None
                    &&& why is Some ==> exists|i: int|
                        #![trigger rows@[i]]
                        0 <= i < rows@.len() && refusal(entity_steps(names, vocab, rows@[i])) == why
                },
                Page::Facts(rows) => {
                    &&& why is None <==> forall|i: int|
                        #![trigger rows@[i]]
                        0 <= i < rows@.len() ==> refusal(fact_steps(names, vocab, rows@[i], now)) is None
                    &&& why is Some ==> exists|i: int|
                        #![trigger rows@[i]]
                        0 <= i < rows@.len() && refusal(fact_steps(names, vocab, rows@[i], now)) == why
                },
                Page::Evidence(rows) => {
                    &&& why is None <==> forall|i: int|
                        #![trigger rows@[i]]
                        0 <= i < rows@.len() ==> refusal(evidence_steps(names, rows@[i])) is None
                    &&& why is Some ==> exists|i: int|
                        #![trigger rows@[i]]
                        0 <= i < rows@.len() && refusal(evidence_steps(names, rows@[i])) == why
                },
                Page::Derived(rows) => {
                    &&& why is None <==> forall|i: int|
                        #![trigger rows@[i]]
                        0 <= i < rows@.len() ==> refusal(derived_steps(names, vocab, rows@[i])) is None
                    &&& why is Some ==> exists|i: int|
                        #![trigger rows@[i]]
                        0 <= i < rows@.len() && refusal(derived_steps(names, vocab, rows@[i])) == why
                },
            }
        }),
{
    let why = refusal(page_steps(names, vocab, page, now));
    match page {
        Page::Classes(rows) => {
            let f = class_row_at(vocab, rows@);
            lemma_each_stop(rows@.len(), f);
            if why is None {
                assert forall|i: int|
                    #![trigger rows@[i]]
                    0 <= i < rows@.len() implies refusal(class_steps(vocab, rows@[i])) is None by {
                    assert(refusal(f(i)) is None);
                }
            } else {
                let i = choose|i: int| 0 <= i < rows@.len() && #[trigger] refusal(f(i)) == why;
                assert(refusal(class_steps(vocab, rows@[i])) == why);
            }
        },
        Page::Relations(rows) => {
            let f = relation_row_at(vocab, rows@);
            lemma_each_stop(rows@.len(), f);
            if why is None {
                assert forall|i: int|
                    #![trigger rows@[i]]
                    0 <= i < rows@.len() implies refusal(relation_steps(vocab, rows@[i])) is None by {
                    assert(refusal(f(i)) is None);
                }
            } else {
                let i = choose|i: int| 0 <= i < rows@.len() && #[trigger] refusal(f(i)) == why;
                assert(refusal(relation_steps(vocab, rows@[i])) == why);
            }
        },
        Page::Rules(rows) => {
            let f = rule_row_at(names, vocab, rows@);
            lemma_each_stop(rows@.len(), f);
            if why is None {
                assert forall|i: int|
                    #![trigger rows@[i]]
                    0 <= i < rows@.len() implies refusal(rule_steps(names, vocab, rows@[i])) is None by {
                    assert(refusal(f(i)) is None);
                }
            } else {
                let i = choose|i: int| 0 <= i < rows@.len() && #[trigger] refusal(f(i)) == why;
                assert(refusal(rule_steps(names, vocab, rows@[i])) == why);
            }
        },
        Page::AttributeRules(rows) => {
            let f = attribute_rule_row_at(names, vocab, rows@);
            lemma_each_stop(rows@.len(), f);
            if why is None {
                assert forall|i: int|
                    #![trigger rows@[i]]
                    0 <= i < rows@.len() implies refusal(attribute_rule_steps(names, vocab, rows@[i])) is None by {
                    assert(refusal(f(i)) is None);
                }
            } else {
                let i = choose|i: int| 0 <= i < rows@.len() && #[trigger] refusal(f(i)) == why;
                assert(refusal(attribute_rule_steps(names, vocab, rows@[i])) == why);
            }
        },
        Page::Documents(rows) => {
            let f = document_row_at(names, rows@);
            lemma_each_stop(rows@.len(), f);
            if why is None {
                assert forall|i: int|
                    #![trigger rows@[i]]
                    0 <= i < rows@.len() implies refusal(document_steps(names, rows@[i])) is None by {
                    assert(refusal(f(i)) is None);
                }
            } else {
                let i = choose|i: int| 0 <= i < rows@.len() && #[trigger] refusal(f(i)) == why;
                assert(refusal(document_steps(names, rows@[i])) == why);
            }
        },
        Page::DocumentVersions(rows) => {
            let f = docversion_row_at(names, rows@);
            lemma_each_stop(rows@.len(), f);
            if why is None {
                assert forall|i: int|
                    #![trigger rows@[i]]
                    0 <= i < rows@.len() implies refusal(docversion_steps(names, rows@[i])) is None by {
                    assert(refusal(f(i)) is None);
                }
            } else {
                let i = choose|i: int| 0 <= i < rows@.len() && #[trigger] refusal(f(i)) == why;
                assert(refusal(docversion_steps(names, rows@[i])) == why);
            }
        },
        Page::Chunks(rows) => {
            let f = chunk_row_at(names, rows@);
            lemma_each_stop(rows@.len(), f);
            if why is None {
                assert forall|i: int|
                    #![trigger rows@[i]]
                    0 <= i < rows@.len() implies refusal(chunk_steps(names, rows@[i])) is None by {
                    assert(refusal(f(i)) is None);
                }
            } else {
                let i = choose|i: int| 0 <= i < rows@.len() && #[trigger] refusal(f(i)) == why;
                assert(refusal(chunk_steps(names, rows@[i])) == why);
            }
        },
        Page::Entities(rows) => {
            let f = entity_row_at(names, vocab, rows@);
            lemma_each_stop(rows@.len(), f);
            if why is None {
                assert forall|i: int|
                    #![trigger rows@[i]]
                    0 <= i < rows@.len() implies refusal(entity_steps(names, vocab, rows@[i])) is None by {
                    assert(refusal(f(i)) is None);
                }
            } else {
                let i = choose|i: int| 0 <= i < rows@.len() && #[trigger] refusal(f(i)) == why;
                assert(refusal(entity_steps(names, vocab, rows@[i])) == why);
            }
        },
        Page::Facts(rows) => {
            let f = fact_row_at(names, vocab, now, rows@);
            lemma_each_stop(rows@.len(), f);
            if why is None {
                assert forall|i: int|
                    #![trigger rows@[i]]
                    0 <= i < rows@.len() implies refusal(fact_steps(names, vocab, rows@[i], now)) is None by {
                    assert(refusal(f(i)) is None);
                }
            } else {
                let i = choose|i: int| 0 <= i < rows@.len() && #[trigger] refusal(f(i)) == why;
                assert(refusal(fact_steps(names, vocab, rows@[i], now)) == why);
            }
        },
        Page::Evidence(rows) => {
            let f = evidence_row_at(names, rows@);
            lemma_each_stop(rows@.len(), f);
            if why is None {
                assert forall|i: int|
                    #![trigger rows@[i]]
                    0 <= i < rows@.len() implies refusal(evidence_steps(names, rows@[i])) is None by {
                    assert(refusal(f(i)) is None);
                }
            } else {
                let i = choose|i: int| 0 <= i < rows@.len() && #[trigger] refusal(f(i)) == why;
                assert(refusal(evidence_steps(names, rows@[i])) == why);
            }
        },
        Page::Derived(rows) => {
            let f = derived_row_at(names, vocab, rows@);
            lemma_each_stop(rows@.len(), f);
            if why is None {
                assert forall|i: int|
                    #![trigger rows@[i]]
                    0 <= i < rows@.len() implies refusal(derived_steps(names, vocab, rows@[i])) is None by {
                    assert(refusal(f(i)) is None);
                }
            } else {
                let i = choose|i: int| 0 <= i < rows@.len() && #[trigger] refusal(f(i)) == why;
                assert(refusal(derived_steps(names, vocab, rows@[i])) == why);
            }
        },
    }
}

} // verus!
