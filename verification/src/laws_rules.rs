//! What business rules say: exactly which triples are written of them, field by field.
use crate::emit_rules::{
    attribute_rule_steps, conclusion_steps, condition_at, condition_steps, conditions_steps,
    formula_steps, operand_steps, read_at, reads_steps,
};
use crate::expr::{expr_ids, leaf_id};
use crate::json::{json_compact, JsonView};
use crate::laws_among::{
    among, group_among_cells, lemma_among_concat, lemma_among_each, lemma_written,
};
use crate::literals::{flag_literal, integer_literal, text_literal, value_literal};
use crate::names::Names;
use crate::rows::{ExportAttributeRule, ExportRuleCondition};
use crate::steps::{each, emitted, refusal};
use crate::term::{link, prov_iri, rdf_iri, rdfs_iri, says, utopia_iri, TripleView};
use crate::uuid::Uuid;
use crate::vocabulary::Vocabulary;
use vstd::prelude::*;

verus! {

// ---- Formulas ----

/// A formula reads what its leaves name: an `attr` leaf reads the relation that it spells, a constant
/// reads nothing, and a node reads what its left side reads and then what its right side reads.
/// Whatever else stands there reads nothing.
pub proof fn formula_reads_its_leaves(v: JsonView)
    ensures
        v matches JsonView::Object(fields) ==> ({
            &&& fields.dom().contains("attr"@) ==> expr_ids(v) == seq![leaf_id(fields["attr"@])]
            &&& !fields.dom().contains("attr"@) && (fields.dom().contains("const"@)
                || !fields.dom().contains("op"@)) ==> expr_ids(v) == Seq::<Option<Uuid>>::empty()
            &&& !fields.dom().contains("attr"@) && !fields.dom().contains("const"@)
                && fields.dom().contains("op"@) && fields.dom().contains("l"@)
                && fields.dom().contains("r"@) ==> expr_ids(v) == expr_ids(fields["l"@]) + expr_ids(
                fields["r"@],
            )
            &&& !fields.dom().contains("attr"@) && !fields.dom().contains("const"@)
                && fields.dom().contains("op"@) && fields.dom().contains("l"@)
                && !fields.dom().contains("r"@) ==> expr_ids(v) == expr_ids(fields["l"@])
            &&& !fields.dom().contains("attr"@) && !fields.dom().contains("const"@)
                && fields.dom().contains("op"@) && !fields.dom().contains("l"@)
                && fields.dom().contains("r"@) ==> expr_ids(v) == expr_ids(fields["r"@])
            &&& !fields.dom().contains("attr"@) && !fields.dom().contains("l"@)
                && !fields.dom().contains("r"@) ==> expr_ids(v) == Seq::<Option<Uuid>>::empty()
        }),
        !(v is Object) ==> expr_ids(v) == Seq::<Option<Uuid>>::empty(),
{
    if let JsonView::Object(fields) = v {
        if fields.dom().contains("l"@) {
            assert(expr_ids(fields["l"@]) + Seq::<Option<Uuid>>::empty() =~= expr_ids(fields["l"@]));
        }
        if fields.dom().contains("r"@) {
            assert(Seq::<Option<Uuid>>::empty() + expr_ids(fields["r"@]) =~= expr_ids(fields["r"@]));
        }
        assert(Seq::<Option<Uuid>>::empty() + Seq::<Option<Uuid>>::empty() =~= Seq::<
            Option<Uuid>,
        >::empty());
    }
}

/// The first `n` relations of a list that a formula reads, with an edge to each that is known.
spec fn read_said(
    vocab: Vocabulary,
    node: Seq<char>,
    ids: Seq<Option<Uuid>>,
    n: nat,
    t: TripleView,
) -> bool {
    exists|i: int|
        0 <= i < n && #[trigger] ids[i] is Some && vocab.relation_iri(ids[i]->0) is Some && t == link(
            node,
            utopia_iri("readsPredicate"@),
            vocab.relation_iri(ids[i]->0)->0,
        )
}

proof fn lemma_among_reads_upto(
    vocab: Vocabulary,
    node: Seq<char>,
    ids: Seq<Option<Uuid>>,
    edge: Seq<char>,
    n: nat,
    t: TripleView,
)
    requires
        n <= ids.len(),
    ensures
        among(each(n, read_at(vocab, node, ids, edge)), t) <==> read_said(vocab, node, ids, n, t),
    decreases n,
{
    broadcast use group_among_cells;

    let f = read_at(vocab, node, ids, edge);
    if n > 0 {
        let k = (n - 1) as nat;
        lemma_among_reads_upto(vocab, node, ids, edge, k, t);
        assert(each(n, f) == each(k, f) + f(k as int));
        lemma_among_concat(each(k, f), f(k as int), t);
        if among(f(k as int), t) {
            assert(ids[k as int] is Some);
            assert(read_said(vocab, node, ids, n, t));
        }
        if read_said(vocab, node, ids, k, t) {
            let i = choose|i: int|
                0 <= i < k && #[trigger] ids[i] is Some && vocab.relation_iri(ids[i]->0) is Some && t
                    == link(
                    node,
                    utopia_iri("readsPredicate"@),
                    vocab.relation_iri(ids[i]->0)->0,
                );
            assert(0 <= i < n && ids[i] is Some);
        }
        if read_said(vocab, node, ids, n, t) && !read_said(vocab, node, ids, k, t) {
            assert(ids[k as int] is Some);
            if ids.take(k as int).contains(ids[k as int]) {
                let j = choose|j: int| 0 <= j < k && ids.take(k as int)[j] == ids[k as int];
                assert(ids[j] == ids[k as int]);
            }
        }
    }
}

broadcast proof fn lemma_among_reads(
    vocab: Vocabulary,
    node: Seq<char>,
    formula: JsonView,
    edge: Seq<char>,
    t: TripleView,
)
    ensures
        #[trigger] among(reads_steps(vocab, node, formula, edge), t) <==> exists|i: int|
            0 <= i < expr_ids(formula).len() && #[trigger] expr_ids(formula)[i] is Some
                && vocab.relation_iri(expr_ids(formula)[i]->0) is Some && t == link(
                node,
                utopia_iri("readsPredicate"@),
                vocab.relation_iri(expr_ids(formula)[i]->0)->0,
            ),
{
    reveal(reads_steps);
    lemma_among_reads_upto(vocab, node, expr_ids(formula), edge, expr_ids(formula).len(), t);
}

// ---- Conditions ----

/// What a condition of the rule `rule` says.
spec fn condition_said(
    names: Names,
    vocab: Vocabulary,
    rule: Seq<char>,
    c: ExportRuleCondition,
    t: TripleView,
) -> bool {
    let node = names.condition_iri(c.rule_id, c.group_seq, c.seq);
    ||| t == link(rule, utopia_iri("condition"@), node)
    ||| t == link(node, rdf_iri("type"@), utopia_iri("RuleCondition"@))
    ||| t == says(node, utopia_iri("recordId"@), text_literal(c.id.text()))
    ||| t == says(node, utopia_iri("groupSeq"@), integer_literal(c.group_seq as int))
    ||| t == says(node, utopia_iri("seq"@), integer_literal(c.seq as int))
    ||| vocab.relation_iri(c.predicate_id) is Some && t == link(
        node,
        utopia_iri("onPredicate"@),
        vocab.relation_iri(c.predicate_id)->0,
    )
    ||| t == says(node, utopia_iri("op"@), text_literal(c.op@))
    ||| c.operand is Some && t == says(
        node,
        utopia_iri("operand"@),
        text_literal(json_compact(c.operand->0@)),
    )
    ||| c.operand is Some && c.operand->0@ is Object && exists|k: int|
        0 <= k < expr_ids(c.operand->0@).len() && #[trigger] expr_ids(c.operand->0@)[k] is Some
            && vocab.relation_iri(expr_ids(c.operand->0@)[k]->0) is Some && t == link(
            node,
            utopia_iri("readsPredicate"@),
            vocab.relation_iri(expr_ids(c.operand->0@)[k]->0)->0,
        )
}

broadcast proof fn lemma_among_conditions(
    names: Names,
    vocab: Vocabulary,
    rule: Seq<char>,
    cs: Seq<ExportRuleCondition>,
    t: TripleView,
)
    ensures
        #[trigger] among(conditions_steps(names, vocab, rule, cs), t) <==> exists|i: int|
            0 <= i < cs.len() && condition_said(names, vocab, rule, #[trigger] cs[i], t),
{
    broadcast use {group_among_cells, lemma_among_reads};

    reveal(conditions_steps);
    reveal(condition_steps);
    reveal(operand_steps);
    let f = condition_at(names, vocab, rule, cs);
    lemma_among_each(cs.len(), f, t);
    if exists|i: int| 0 <= i < cs.len() && condition_said(names, vocab, rule, #[trigger] cs[i], t) {
        let i = choose|i: int|
            0 <= i < cs.len() && condition_said(names, vocab, rule, #[trigger] cs[i], t);
        assert(among(f(i), t));
    }
    if exists|i: int| 0 <= i < cs.len() && among(#[trigger] f(i), t) {
        let i = choose|i: int| 0 <= i < cs.len() && among(#[trigger] f(i), t);
        assert(condition_said(names, vocab, rule, cs[i], t));
    }
}

// ---- Rules ----

/// Of a business rule exactly this is written: that it is an activity, its name and description, the
/// class that it looks at, the class, the relation and the value or the formula that it concludes,
/// with the relations that the formula reads, each condition with its place, relation, operator and
/// threshold, of whatever kind that is, and whether the rule is switched off.
pub proof fn attribute_rule_says(
    names: Names,
    vocab: Vocabulary,
    r: ExportAttributeRule,
    t: TripleView,
)
    ensures
        ({
            let rule = names.attribute_rule_iri(r.id);
            let written = emitted(attribute_rule_steps(names, vocab, r));
            let said = {
                ||| t == link(rule, rdf_iri("type"@), prov_iri("Activity"@))
                ||| t == says(rule, rdfs_iri("label"@), text_literal(r.name@))
                ||| t == says(rule, utopia_iri("ruleKind"@), text_literal("business"@))
                ||| r.description@.len() > 0 && t == says(
                    rule,
                    rdfs_iri("comment"@),
                    text_literal(r.description@),
                )
                ||| t == says(rule, utopia_iri("conclusion"@), text_literal(r.conclusion@))
                ||| vocab.class_iri(r.subject_type_id) is Some && t == link(
                    rule,
                    utopia_iri("subjectType"@),
                    vocab.class_iri(r.subject_type_id)->0,
                )
                ||| r.conclude_type_id is Some && vocab.class_iri(r.conclude_type_id->0) is Some && t
                    == link(
                    rule,
                    utopia_iri("concludesType"@),
                    vocab.class_iri(r.conclude_type_id->0)->0,
                )
                ||| r.conclude_predicate_id is Some && vocab.relation_iri(
                    r.conclude_predicate_id->0,
                ) is Some && t == link(
                    rule,
                    utopia_iri("concludesPredicate"@),
                    vocab.relation_iri(r.conclude_predicate_id->0)->0,
                )
                ||| r.conclude_predicate_id is Some && r.conclude_value is Some && t == says(
                    rule,
                    utopia_iri("concludesValue"@),
                    value_literal(
                        r.conclude_value->0@,
                        vocab.datatype(r.conclude_predicate_id->0),
                    ),
                )
                ||| r.conclude_expr is Some && t == says(
                    rule,
                    utopia_iri("concludeExpr"@),
                    text_literal(json_compact(r.conclude_expr->0@)),
                )
                ||| r.conclude_expr is Some && exists|k: int|
                    0 <= k < expr_ids(r.conclude_expr->0@).len() && #[trigger] expr_ids(
                        r.conclude_expr->0@,
                    )[k] is Some && vocab.relation_iri(
                        expr_ids(r.conclude_expr->0@)[k]->0,
                    ) is Some && t == link(
                        rule,
                        utopia_iri("readsPredicate"@),
                        vocab.relation_iri(expr_ids(r.conclude_expr->0@)[k]->0)->0,
                    )
                ||| exists|i: int|
                    #![trigger r.conditions@[i]]
                    0 <= i < r.conditions@.len() && ({
                        let c = r.conditions@[i];
                        let node = names.condition_iri(c.rule_id, c.group_seq, c.seq);
                        ||| t == link(rule, utopia_iri("condition"@), node)
                        ||| t == link(node, rdf_iri("type"@), utopia_iri("RuleCondition"@))
                        ||| t == says(node, utopia_iri("recordId"@), text_literal(c.id.text()))
                        ||| t == says(node, utopia_iri("groupSeq"@), integer_literal(c.group_seq as int))
                        ||| t == says(node, utopia_iri("seq"@), integer_literal(c.seq as int))
                        ||| vocab.relation_iri(c.predicate_id) is Some && t == link(
                            node,
                            utopia_iri("onPredicate"@),
                            vocab.relation_iri(c.predicate_id)->0,
                        )
                        ||| t == says(node, utopia_iri("op"@), text_literal(c.op@))
                        ||| c.operand is Some && t == says(
                            node,
                            utopia_iri("operand"@),
                            text_literal(json_compact(c.operand->0@)),
                        )
                        ||| c.operand is Some && c.operand->0@ is Object && exists|k: int|
                            0 <= k < expr_ids(c.operand->0@).len() && #[trigger] expr_ids(c.operand->0@)[k] is Some
                                && vocab.relation_iri(expr_ids(c.operand->0@)[k]->0) is Some && t == link(
                                node,
                                utopia_iri("readsPredicate"@),
                                vocab.relation_iri(expr_ids(c.operand->0@)[k]->0)->0,
                            )
                    })
                ||| !r.enabled && t == says(rule, utopia_iri("disabled"@), flag_literal(true))
            };
            &&& written.contains(t) ==> said
            &&& said && refusal(attribute_rule_steps(names, vocab, r)) is None ==> written.contains(t)
        }),
{
    broadcast use {group_among_cells, lemma_among_reads, lemma_among_conditions};

    reveal(conclusion_steps);
    reveal(formula_steps);
    lemma_written(attribute_rule_steps(names, vocab, r), t);
}

/// The threshold of a condition is written whatever kind of JSON it is, as its compact text; and so
/// are the operator, the relation and the place of the condition.
pub proof fn every_threshold_is_written(
    names: Names,
    vocab: Vocabulary,
    r: ExportAttributeRule,
    i: int,
)
    requires
        refusal(attribute_rule_steps(names, vocab, r)) is None,
        0 <= i < r.conditions@.len(),
    ensures
        ({
            let c = r.conditions@[i];
            let node = names.condition_iri(c.rule_id, c.group_seq, c.seq);
            let written = emitted(attribute_rule_steps(names, vocab, r));
            &&& c.operand matches Some(o) ==> written.contains(
                says(node, utopia_iri("operand"@), text_literal(json_compact(o@))),
            )
            &&& written.contains(says(node, utopia_iri("op"@), text_literal(c.op@)))
            &&& written.contains(
                says(node, utopia_iri("groupSeq"@), integer_literal(c.group_seq as int)),
            )
            &&& written.contains(says(node, utopia_iri("seq"@), integer_literal(c.seq as int)))
            &&& written.contains(
                link(names.attribute_rule_iri(r.id), utopia_iri("condition"@), node),
            )
        }),
{
    let c = r.conditions@[i];
    let node = names.condition_iri(c.rule_id, c.group_seq, c.seq);
    if let Some(o) = c.operand {
        attribute_rule_says(
            names,
            vocab,
            r,
            says(node, utopia_iri("operand"@), text_literal(json_compact(o@))),
        );
    }
    attribute_rule_says(names, vocab, r, says(node, utopia_iri("op"@), text_literal(c.op@)));
    attribute_rule_says(
        names,
        vocab,
        r,
        says(node, utopia_iri("groupSeq"@), integer_literal(c.group_seq as int)),
    );
    attribute_rule_says(
        names,
        vocab,
        r,
        says(node, utopia_iri("seq"@), integer_literal(c.seq as int)),
    );
    attribute_rule_says(
        names,
        vocab,
        r,
        link(names.attribute_rule_iri(r.id), utopia_iri("condition"@), node),
    );
}

} // verus!
