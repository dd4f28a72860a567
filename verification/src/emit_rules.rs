//! Business rules.
use crate::cells::{
    class_ref_steps, emit_class_ref, emit_integer, emit_link, emit_literal, emit_mark,
    emit_nonempty, emit_opt_class_ref, emit_relation_ref, emit_text, inside, inside_if,
    inside_if_steps, inside_steps, mark_steps, nonempty_steps, opt_class_ref_steps,
    relation_ref_steps, resolved, unresolved_message,
};
use crate::expr::{expr_ids, expr_predicate_ids};
use crate::json::{json_compact, Json, JsonView};
use crate::literals::{integer_literal, literal_value, text_literal, value_literal};
use crate::names::Names;
use crate::rows::{ExportAttributeRule, ExportRuleCondition};
use crate::sink::Sink;
use crate::steps::{
    each, group_steps, lemma_each_stops, lit, nothing, only_if, res, stop_if, took, wrote, Refused,
    Step,
};
use crate::term::{prov, prov_iri, rdf, rdf_iri, rdfs, rdfs_iri, utopia, utopia_iri, NamedNode};
use crate::uuid::Uuid;
use crate::vocabulary::Vocabulary;
use crate::words::lemma_export_word;
use vstd::prelude::*;

verus! {

broadcast use {group_steps, lemma_export_word};

// ---- The relations that a formula reads ----

/// The edge for the `i`-th relation that a formula reads. One that it has read before needs no
/// second edge.
pub open spec fn read_at(
    vocab: Vocabulary,
    node: Seq<char>,
    ids: Seq<Option<Uuid>>,
    edge: Seq<char>,
) -> spec_fn(int) -> Seq<Step> {
    |i: int|
        if ids.take(i).contains(ids[i]) {
            nothing()
        } else {
            match ids[i] {
                Some(id) => relation_ref_steps(
                    vocab,
                    node,
                    utopia_iri("readsPredicate"@),
                    id,
                    edge,
                ),
                None => stop_if(true, unresolved_message(edge)),
            }
        }
}

/// An edge to every relation that a formula reads.
#[verifier::opaque]
pub open spec fn reads_steps(
    vocab: Vocabulary,
    node: Seq<char>,
    formula: JsonView,
    edge: Seq<char>,
) -> Seq<Step> {
    each(expr_ids(formula).len(), read_at(vocab, node, expr_ids(formula), edge))
}

fn occurs_before(ids: &Vec<Option<Uuid>>, n: usize) -> (b: bool)
    requires
        n < ids@.len(),
    ensures
        b == ids@.take(n as int).contains(ids@[n as int]),
{
    let mut j: usize = 0;
    while j < n
        invariant
            j <= n < ids@.len(),
            forall|k: int| 0 <= k < j ==> ids@[k] != ids@[n as int],
        decreases n - j,
    {
        let same: bool = match (ids[j], ids[n]) {
            (Some(a), Some(b)) => a == b,
            (None, None) => true,
            _ => false,
        };
        if same {
            proof {
                assert(ids@.take(n as int)[j as int] == ids@[n as int]);
            }
            return true;
        }
        j += 1;
    }
    false
}

/// Writes an edge to every relation that a formula reads. A JSON column has no foreign keys, so
/// this is where a reference to nowhere is found out.
pub fn reads_predicates(
    sink: &mut Sink,
    vocab: &Vocabulary,
    node: &NamedNode,
    raw: &Json,
    edge: &str,
) -> (r: Result<(), Refused>)
    requires
        old(sink).wf(),
    ensures
        took(*old(sink), *final(sink), r, reads_steps(*vocab, node@, raw@, edge@)),
{
    proof {
        reveal(reads_steps);
    }
    let mut ids: Vec<Option<Uuid>> = Vec::new();
    expr_predicate_ids(raw, &mut ids);
    proof {
        assert(ids@ =~= expr_ids(raw@));
    }
    let ghost f = read_at(*vocab, node@, ids@, edge@);
    let mut i: usize = 0;
    while i < ids.len()
        invariant
            i <= ids@.len(),
            ids@ == expr_ids(raw@),
            f == read_at(*vocab, node@, ids@, edge@),
            sink.wf(),
            wrote(*old(sink), *sink, each(i as nat, f)),
        decreases ids@.len() - i,
    {
        proof {
            assert(each((i + 1) as nat, f) == each(i as nat, f) + f(i as int));
        }
        if !occurs_before(&ids, i) {
            let r: Result<(), Refused> = match ids[i] {
                Some(id) => emit_relation_ref(sink, vocab, node, &utopia("readsPredicate"), id, edge),
                None => Err(resolved(edge)),
            };
            if r.is_err() {
                proof {
                    reveal(reads_steps);
                    lemma_each_stops((i + 1) as nat, ids@.len(), f);
                }
                return r;
            }
        }
        i += 1;
    }
    Ok(())
}

// ---- Conditions ----

/// The threshold of a condition, and the relations that it reads if it is a formula.
#[verifier::opaque]
pub open spec fn operand_steps(
    vocab: Vocabulary,
    node: Seq<char>,
    operand: Option<Json>,
) -> Seq<Step> {
    match operand {
        Some(o) => lit(node, utopia_iri("operand"@), text_literal(json_compact(o@))) + only_if(
            o@ is Object,
            reads_steps(vocab, node, o@, "condition.expr_predicate"@),
        ),
        None => nothing(),
    }
}

/// The steps for a condition of the rule `rule`.
#[verifier::opaque]
pub open spec fn condition_steps(
    names: Names,
    vocab: Vocabulary,
    rule: Seq<char>,
    c: ExportRuleCondition,
) -> Seq<Step> {
    let node = names.condition_iri(c.rule_id, c.group_seq, c.seq);
    inside_steps(names, c.predicate_kb, "condition.predicate"@)
        + res(rule, utopia_iri("condition"@), node)
        + res(node, rdf_iri("type"@), utopia_iri("RuleCondition"@))
        + lit(node, utopia_iri("recordId"@), text_literal(c.id.text()))
        + lit(node, utopia_iri("groupSeq"@), integer_literal(c.group_seq as int))
        + lit(node, utopia_iri("seq"@), integer_literal(c.seq as int))
        + relation_ref_steps(
        vocab,
        node,
        utopia_iri("onPredicate"@),
        c.predicate_id,
        "condition.predicate"@,
    )
        + lit(node, utopia_iri("op"@), text_literal(c.op@))
        + operand_steps(vocab, node, c.operand)
}

fn emit_operand(
    sink: &mut Sink,
    vocab: &Vocabulary,
    node: &NamedNode,
    operand: &Option<Json>,
) -> (r: Result<(), Refused>)
    requires
        old(sink).wf(),
    ensures
        took(*old(sink), *final(sink), r, operand_steps(*vocab, node@, *operand)),
{
    proof {
        reveal(operand_steps);
    }
    if let Some(o) = operand {
        emit_text(sink, node, &utopia("operand"), o.to_text().as_str());
        if o.is_object() {
            return reads_predicates(sink, vocab, node, o, "condition.expr_predicate");
        }
    }
    Ok(())
}

fn emit_condition(
    sink: &mut Sink,
    names: &Names,
    vocab: &Vocabulary,
    rule: &NamedNode,
    c: &ExportRuleCondition,
) -> (r: Result<(), Refused>)
    requires
        old(sink).wf(),
    ensures
        took(*old(sink), *final(sink), r, condition_steps(*names, *vocab, rule@, *c)),
{
    proof {
        reveal(condition_steps);
    }
    inside(names, c.predicate_kb, "condition.predicate")?;
    let node: NamedNode = names.condition(c.rule_id, c.group_seq, c.seq);
    emit_link(sink, rule, &utopia("condition"), &node);
    emit_link(sink, &node, &rdf("type"), &utopia("RuleCondition"));
    emit_text(sink, &node, &utopia("recordId"), c.id.to_string().as_str());
    emit_integer(sink, &node, &utopia("groupSeq"), c.group_seq as i64);
    emit_integer(sink, &node, &utopia("seq"), c.seq as i64);
    emit_relation_ref(
        sink,
        vocab,
        &node,
        &utopia("onPredicate"),
        c.predicate_id,
        "condition.predicate",
    )?;
    emit_text(sink, &node, &utopia("op"), c.op.as_str());
    emit_operand(sink, vocab, &node, &c.operand)
}

/// The steps for the `i`-th condition of a rule.
pub open spec fn condition_at(
    names: Names,
    vocab: Vocabulary,
    rule: Seq<char>,
    conditions: Seq<ExportRuleCondition>,
) -> spec_fn(int) -> Seq<Step> {
    |i: int| condition_steps(names, vocab, rule, conditions[i])
}

/// The steps for the conditions of a rule, in order.
#[verifier::opaque]
pub open spec fn conditions_steps(
    names: Names,
    vocab: Vocabulary,
    rule: Seq<char>,
    conditions: Seq<ExportRuleCondition>,
) -> Seq<Step> {
    each(conditions.len(), condition_at(names, vocab, rule, conditions))
}

fn emit_conditions(
    sink: &mut Sink,
    names: &Names,
    vocab: &Vocabulary,
    rule: &NamedNode,
    conditions: &Vec<ExportRuleCondition>,
) -> (r: Result<(), Refused>)
    requires
        old(sink).wf(),
    ensures
        took(*old(sink), *final(sink), r, conditions_steps(*names, *vocab, rule@, conditions@)),
{
    proof {
        reveal(conditions_steps);
    }
    let ghost f = condition_at(*names, *vocab, rule@, conditions@);
    let mut i: usize = 0;
    while i < conditions.len()
        invariant
            i <= conditions@.len(),
            f == condition_at(*names, *vocab, rule@, conditions@),
            sink.wf(),
            wrote(*old(sink), *sink, each(i as nat, f)),
        decreases conditions@.len() - i,
    {
        proof {
            assert(each((i + 1) as nat, f) == each(i as nat, f) + f(i as int));
        }
        let r = emit_condition(sink, names, vocab, rule, &conditions[i]);
        if r.is_err() {
            proof {
                reveal(conditions_steps);
                lemma_each_stops((i + 1) as nat, conditions@.len(), f);
            }
            return r;
        }
        i += 1;
    }
    Ok(())
}

// ---- Rules ----

/// The relation that a rule concludes, and the value.
#[verifier::opaque]
pub open spec fn conclusion_steps(
    vocab: Vocabulary,
    iri: Seq<char>,
    predicate: Option<Uuid>,
    value: Option<Json>,
) -> Seq<Step> {
    match predicate {
        Some(p) => relation_ref_steps(
            vocab,
            iri,
            utopia_iri("concludesPredicate"@),
            p,
            "arule.conclude_predicate"@,
        ) + match value {
            Some(v) => lit(
                iri,
                utopia_iri("concludesValue"@),
                value_literal(v@, vocab.datatype(p)),
            ),
            None => nothing(),
        },
        None => nothing(),
    }
}

/// The formula of a rule, and the relations that it reads.
#[verifier::opaque]
pub open spec fn formula_steps(
    vocab: Vocabulary,
    iri: Seq<char>,
    formula: Option<Json>,
) -> Seq<Step,
> {
    match formula {
        Some(e) => lit(iri, utopia_iri("concludeExpr"@), text_literal(json_compact(e@)))
            + reads_steps(vocab, iri, e@, "arule.expr_predicate"@),
        None => nothing(),
    }
}

/// The steps for a business rule.
pub open spec fn attribute_rule_steps(
    names: Names,
    vocab: Vocabulary,
    r: ExportAttributeRule,
) -> Seq<Step> {
    let iri = names.attribute_rule_iri(r.id);
    inside_steps(names, r.subject_type_kb, "arule.subject_type"@)
        + inside_if_steps(names, r.conclude_type_id, r.conclude_type_kb, "arule.conclude_type"@)
        + inside_if_steps(
        names,
        r.conclude_predicate_id,
        r.conclude_predicate_kb,
        "arule.conclude_predicate"@,
    )
        + res(iri, rdf_iri("type"@), prov_iri("Activity"@))
        + lit(iri, rdfs_iri("label"@), text_literal(r.name@))
        + lit(iri, utopia_iri("ruleKind"@), text_literal("business"@))
        + nonempty_steps(iri, rdfs_iri("comment"@), r.description)
        + lit(iri, utopia_iri("conclusion"@), text_literal(r.conclusion@))
        + class_ref_steps(vocab, iri, utopia_iri("subjectType"@), r.subject_type_id, "arule.subject_type"@)
        + opt_class_ref_steps(
        vocab,
        iri,
        utopia_iri("concludesType"@),
        r.conclude_type_id,
        "arule.conclude_type"@,
    )
        + conclusion_steps(vocab, iri, r.conclude_predicate_id, r.conclude_value)
        + formula_steps(vocab, iri, r.conclude_expr)
        + conditions_steps(names, vocab, iri, r.conditions@)
        + mark_steps(iri, utopia_iri("disabled"@), !r.enabled)
}

fn emit_conclusion(
    sink: &mut Sink,
    vocab: &Vocabulary,
    iri: &NamedNode,
    predicate: Option<Uuid>,
    value: &Option<Json>,
) -> (r: Result<(), Refused>)
    requires
        old(sink).wf(),
    ensures
        took(*old(sink), *final(sink), r, conclusion_steps(*vocab, iri@, predicate, *value)),
{
    proof {
        reveal(conclusion_steps);
    }
    if let Some(p) = predicate {
        let shape = vocab.literal_shape(p);
        emit_relation_ref(
            sink,
            vocab,
            iri,
            &utopia("concludesPredicate"),
            p,
            "arule.conclude_predicate",
        )?;
        if let Some(v) = value {
            emit_literal(sink, iri, &utopia("concludesValue"), &literal_value(v, shape.0));
        }
    }
    Ok(())
}

fn emit_formula(
    sink: &mut Sink,
    vocab: &Vocabulary,
    iri: &NamedNode,
    formula: &Option<Json>,
) -> (r: Result<(), Refused>)
    requires
        old(sink).wf(),
    ensures
        took(*old(sink), *final(sink), r, formula_steps(*vocab, iri@, *formula)),
{
    proof {
        reveal(formula_steps);
    }
    match formula {
        Some(e) => {
            emit_text(sink, iri, &utopia("concludeExpr"), e.to_text().as_str());
            reads_predicates(sink, vocab, iri, e, "arule.expr_predicate")
        },
        None => Ok(()),
    }
}

/// Writes a business rule: what it looks at, what it concludes, and on which conditions.
pub fn emit_attribute_rule(
    sink: &mut Sink,
    names: &Names,
    vocab: &Vocabulary,
    r: &ExportAttributeRule,
) -> (result: Result<(), Refused>)
    requires
        old(sink).wf(),
    ensures
        took(*old(sink), *final(sink), result, attribute_rule_steps(*names, *vocab, *r)),
{
    inside(names, r.subject_type_kb, "arule.subject_type")?;
    inside_if(names, r.conclude_type_id, r.conclude_type_kb, "arule.conclude_type")?;
    inside_if(
        names,
        r.conclude_predicate_id,
        r.conclude_predicate_kb,
        "arule.conclude_predicate",
    )?;
    let iri: NamedNode = names.attribute_rule(r.id);
    emit_link(sink, &iri, &rdf("type"), &prov("Activity"));
    emit_text(sink, &iri, &rdfs("label"), r.name.as_str());
    emit_text(sink, &iri, &utopia("ruleKind"), "business");
    emit_nonempty(sink, &iri, &rdfs("comment"), &r.description);
    emit_text(sink, &iri, &utopia("conclusion"), r.conclusion.as_str());
    emit_class_ref(
        sink,
        vocab,
        &iri,
        &utopia("subjectType"),
        r.subject_type_id,
        "arule.subject_type",
    )?;
    emit_opt_class_ref(
        sink,
        vocab,
        &iri,
        &utopia("concludesType"),
        r.conclude_type_id,
        "arule.conclude_type",
    )?;
    emit_conclusion(sink, vocab, &iri, r.conclude_predicate_id, &r.conclude_value)?;
    emit_formula(sink, vocab, &iri, &r.conclude_expr)?;
    emit_conditions(sink, names, vocab, &iri, &r.conditions)?;
    emit_mark(sink, &iri, &utopia("disabled"), !r.enabled);
    Ok(())
}

} // verus!
