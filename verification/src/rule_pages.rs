//! The business rules of a knowledge base, with their conditions.
use crate::expr::{expr_ids, expr_predicate_ids};
use crate::groups::{
    gathered, left_over, lemma_gathered_push, lemma_left_over_next, lemma_left_over_start, share,
    Groups,
};
use crate::integrity::{
    foreign, judge, leaves, noted, noted_if, tally, tally_if, verdict, views, AppError,
    CrossKbViolation, ViolationView,
};
use crate::pages::{lemma_note_next, note_each, reported};
use crate::rows::{ExportAttributeRule, ExportRuleCondition};
use crate::uuid::Uuid;
use std::collections::HashMap;
use vstd::prelude::*;

verus! {

broadcast use vstd::std_specs::hash::group_hash_axioms;

/// The references of a business rule that leave the knowledge base.
pub open spec fn arule_notes(
    kb_id: Uuid,
) -> spec_fn(Seq<ViolationView>, ExportAttributeRule) -> Seq<ViolationView,
> {
    |vs: Seq<ViolationView>, r: ExportAttributeRule|
        noted_if(
            noted_if(
                noted_if(vs, "arule.subject_type"@, leaves(r.subject_type_kb, kb_id)),
                "arule.conclude_type"@,
                r.conclude_type_id is Some && leaves(r.conclude_type_kb, kb_id),
            ),
            "arule.conclude_predicate"@,
            r.conclude_predicate_id is Some && leaves(r.conclude_predicate_kb, kb_id),
        )
}

/// The reference of a condition that leaves the knowledge base.
pub open spec fn condition_notes(kb_id: Uuid) -> spec_fn(
    Seq<ViolationView>,
    ExportRuleCondition,
) -> Seq<ViolationView> {
    |vs: Seq<ViolationView>, c: ExportRuleCondition|
        noted_if(vs, "condition.predicate"@, leaves(c.predicate_kb, kb_id))
}

/// The rule that a condition belongs to.
pub open spec fn condition_key() -> spec_fn(ExportRuleCondition) -> u128 {
    |c: ExportRuleCondition| c.rule_id.value
}

/// Notes the conditions that leave the knowledge base, and gathers them by rule, in order.
pub fn rule_conditions_for_export(
    rows: Vec<ExportRuleCondition>,
    kb_id: Uuid,
    violations: &mut Vec<CrossKbViolation>,
) -> (groups: Groups<ExportRuleCondition>)
    ensures
        gathered(groups@, rows@, condition_key()),
        views(final(violations)@) == note_each(
            views(old(violations)@),
            rows@,
            condition_notes(kb_id),
        ),
{
    let ghost f = condition_notes(kb_id);
    let ghost before = views(violations@);
    let ghost all = rows@;
    let mut groups: Groups<ExportRuleCondition> = Groups::new();
    for row in it: rows
        invariant
            it.seq() == all,
            f == condition_notes(kb_id),
            views(violations@) == note_each(before, all.take(it.index() as int), f),
            gathered(groups@, all.take(it.index() as int), condition_key()),
    {
        proof {
            lemma_note_next(before, all, f, it.index() as int);
            assert(all.take(it.index() + 1) =~= all.take(it.index() as int).push(row));
            lemma_gathered_push(groups@, all.take(it.index() as int), condition_key(), row);
        }
        tally_if(violations, "condition.predicate", foreign(row.predicate_kb, kb_id));
        groups.add_row(row.rule_id.value, row);
    }
    proof {
        assert(all.take(all.len() as int) =~= all);
    }
    groups
}

// ---- References in formulas ----

/// The relations that the formulas of some rules read, rule by rule.
pub open spec fn rule_reads(rules: Seq<ExportAttributeRule>) -> Seq<Option<Uuid>>
    decreases rules.len(),
{
    if rules.len() == 0 {
        Seq::empty()
    } else {
        rule_reads(rules.drop_last()) + match rules.last().conclude_expr {
            Some(e) => expr_ids(e@),
            None => Seq::empty(),
        }
    }
}

/// The relations that the thresholds of some conditions read, condition by condition. Only an
/// object is a formula.
pub open spec fn condition_reads(conditions: Seq<ExportRuleCondition>) -> Seq<Option<Uuid>>
    decreases conditions.len(),
{
    if conditions.len() == 0 {
        Seq::empty()
    } else {
        condition_reads(conditions.drop_last()) + match conditions.last().operand {
            Some(o) => if o@ is Object {
                expr_ids(o@)
            } else {
                Seq::empty()
            },
            None => Seq::empty(),
        }
    }
}

/// The relations that the formulas of rules and conditions read.
pub fn embedded_predicates(
    rules: &Vec<ExportAttributeRule>,
    conditions: &Vec<ExportRuleCondition>,
) -> (ids: Vec<Option<Uuid>>)
    ensures
        ids@ == rule_reads(rules@) + condition_reads(conditions@),
{
    let mut ids: Vec<Option<Uuid>> = Vec::new();
    let mut i: usize = 0;
    while i < rules.len()
        invariant
            i <= rules@.len(),
            ids@ == rule_reads(rules@.take(i as int)),
        decreases rules@.len() - i,
    {
        proof {
            assert(rules@.take(i + 1).drop_last() =~= rules@.take(i as int));
        }
        if let Some(e) = &rules[i].conclude_expr {
            expr_predicate_ids(e, &mut ids);
        }
        proof {
            assert(ids@ =~= rule_reads(rules@.take(i + 1)));
        }
        i += 1;
    }
    proof {
        assert(rules@.take(i as int) =~= rules@);
        assert(ids@ + condition_reads(conditions@.take(0)) =~= ids@);
    }
    let ghost of_rules = ids@;
    let mut i: usize = 0;
    while i < conditions.len()
        invariant
            i <= conditions@.len(),
            ids@ == of_rules + condition_reads(conditions@.take(i as int)),
        decreases conditions@.len() - i,
    {
        proof {
            assert(conditions@.take(i + 1).drop_last() =~= conditions@.take(i as int));
        }
        if let Some(o) = &conditions[i].operand {
            if o.is_object() {
                expr_predicate_ids(o, &mut ids);
            }
        }
        proof {
            assert(ids@ =~= of_rules + condition_reads(conditions@.take(i + 1)));
        }
        i += 1;
    }
    proof {
        assert(conditions@.take(i as int) =~= conditions@);
    }
    ids
}

/// The knowledge bases of relations, as they were read.
pub open spec fn kbs_of(rows: Seq<(Uuid, Option<Uuid>)>) -> Map<u128, Option<Uuid>>
    decreases rows.len(),
{
    if rows.len() == 0 {
        Map::empty()
    } else {
        kbs_of(rows.drop_last()).insert(rows.last().0.value, rows.last().1)
    }
}

/// A relation that a formula reads is not one of the knowledge base. One without an identifier is
/// none either.
pub open spec fn bad_read(kbs: Map<u128, Option<Uuid>>, kb_id: Uuid, id: Option<Uuid>) -> bool {
    match id {
        Some(u) => !(kbs.dom().contains(u.value) && kbs[u.value] == Some(kb_id)),
        None => true,
    }
}

/// How many of the relations that formulas read are not of the knowledge base.
pub open spec fn bad_reads(
    kbs: Map<u128, Option<Uuid>>,
    kb_id: Uuid,
    ids: Seq<Option<Uuid>>,
) -> nat
    decreases ids.len(),
{
    if ids.len() == 0 {
        0
    } else {
        bad_reads(kbs, kb_id, ids.drop_last()) + (if bad_read(kbs, kb_id, ids.last()) {
            1nat
        } else {
            0nat
        })
    }
}

fn gather_kbs(rows: &Vec<(Uuid, Option<Uuid>)>) -> (kbs: HashMap<u128, Option<Uuid>>)
    ensures
        kbs@ == kbs_of(rows@),
{
    let mut kbs: HashMap<u128, Option<Uuid>> = HashMap::new();
    let mut i: usize = 0;
    proof {
        assert(kbs@ =~= kbs_of(rows@.take(0)));
    }
    while i < rows.len()
        invariant
            i <= rows@.len(),
            kbs@ == kbs_of(rows@.take(i as int)),
        decreases rows@.len() - i,
    {
        proof {
            assert(rows@.take(i + 1).drop_last() =~= rows@.take(i as int));
        }
        kbs.insert(rows[i].0.value, rows[i].1);
        i += 1;
    }
    proof {
        assert(rows@.take(i as int) =~= rows@);
    }
    kbs
}

fn count_bad_reads(
    kbs: &HashMap<u128, Option<Uuid>>,
    kb_id: Uuid,
    ids: &Vec<Option<Uuid>>,
) -> (n: i64)
    ensures
        n == reported(bad_reads(kbs@, kb_id, ids@)),
{
    let mut n: i64 = 0;
    let mut i: usize = 0;
    while i < ids.len()
        invariant
            i <= ids@.len(),
            n == reported(bad_reads(kbs@, kb_id, ids@.take(i as int))),
        decreases ids@.len() - i,
    {
        proof {
            assert(ids@.take(i + 1).drop_last() =~= ids@.take(i as int));
        }
        let bad: bool = match ids[i] {
            Some(u) => match kbs.get(&u.value) {
                Some(kb) => foreign(*kb, kb_id),
                None => true,
            },
            None => true,
        };
        if bad && n < i64::MAX {
            n += 1;
        }
        i += 1;
    }
    proof {
        assert(ids@.take(i as int) =~= ids@);
    }
    n
}

// ---- Rules ----

/// The violations of the business rules of a knowledge base: those of the rules, of their
/// conditions, and of their formulas.
pub open spec fn arules_violations(
    rules: Seq<ExportAttributeRule>,
    conditions: Seq<ExportRuleCondition>,
    relation_kbs: Seq<(Uuid, Option<Uuid>)>,
    kb_id: Uuid,
) -> Seq<ViolationView> {
    let vs = note_each(Seq::empty(), rules, arule_notes(kb_id));
    let vs = note_each(vs, conditions, condition_notes(kb_id));
    noted(
        vs,
        "rule.expr_predicate"@,
        reported(
            bad_reads(kbs_of(relation_kbs), kb_id, rule_reads(rules) + condition_reads(conditions)),
        ),
    )
}

/// The identifiers of some rules.
pub open spec fn arule_ids(rules: Seq<ExportAttributeRule>) -> Seq<Uuid> {
    rules.map_values(|r: ExportAttributeRule| r.id)
}

/// Rule `i` of a knowledge base, with the conditions that go to it.
pub open spec fn conditioned(
    rules: Seq<ExportAttributeRule>,
    i: int,
    conditions: Seq<ExportRuleCondition>,
    out: ExportAttributeRule,
) -> bool {
    let cs = share(arule_ids(rules), i, conditions, condition_key());
    &&& out == (ExportAttributeRule { conditions: out.conditions, ..rules[i] })
    &&& if cs.len() > 0 {
        out.conditions@ == cs
    } else {
        out.conditions == rules[i].conditions
    }
}

/// Holds the business rules to the knowledge base, and completes each with its conditions. Rules
/// that are switched off stay in: they may have derived facts while they were on.
/// `relation_kbs` are the relations that `embedded_predicates` names, with their knowledge bases.
pub fn attribute_rules(
    rules: Vec<ExportAttributeRule>,
    conditions: Vec<ExportRuleCondition>,
    relation_kbs: &Vec<(Uuid, Option<Uuid>)>,
    kb_id: Uuid,
) -> (r: Result<Vec<ExportAttributeRule>, AppError>)
    ensures
        match verdict(
            arules_violations(rules@, conditions@, relation_kbs@, kb_id),
            Seq::empty(),
        ) {
            Some(e) => r matches Err(err) && err@ == e,
            None => r matches Ok(out) && out@.len() == rules@.len() && forall|i: int|
                0 <= i < rules@.len() ==> conditioned(rules@, i, conditions@, #[trigger] out@[i]),
        },
{
    let ghost f = arule_notes(kb_id);
    let mut violations: Vec<CrossKbViolation> = Vec::new();
    let none: Vec<CrossKbViolation> = Vec::new();
    let mut i: usize = 0;
    proof {
        assert(views(violations@) =~= Seq::empty());
        assert(views(none@) =~= Seq::empty());
    }
    while i < rules.len()
        invariant
            i <= rules@.len(),
            f == arule_notes(kb_id),
            views(violations@) == note_each(Seq::empty(), rules@.take(i as int), f),
        decreases rules@.len() - i,
    {
        proof {
            lemma_note_next(Seq::empty(), rules@, f, i as int);
        }
        let rule: &ExportAttributeRule = &rules[i];
        tally_if(&mut violations, "arule.subject_type", foreign(rule.subject_type_kb, kb_id));
        tally_if(
            &mut violations,
            "arule.conclude_type",
            rule.conclude_type_id.is_some() && foreign(rule.conclude_type_kb, kb_id),
        );
        tally_if(
            &mut violations,
            "arule.conclude_predicate",
            rule.conclude_predicate_id.is_some() && foreign(rule.conclude_predicate_kb, kb_id),
        );
        i += 1;
    }
    proof {
        assert(rules@.take(i as int) =~= rules@);
    }
    let ghost cs = conditions@;
    let embedded: Vec<Option<Uuid>> = embedded_predicates(&rules, &conditions);
    let mut by_rule: Groups<ExportRuleCondition> = rule_conditions_for_export(
        conditions,
        kb_id,
        &mut violations,
    );
    let kbs: HashMap<u128, Option<Uuid>> = gather_kbs(relation_kbs);
    tally(&mut violations, "rule.expr_predicate", count_bad_reads(&kbs, kb_id, &embedded));
    judge(&violations, &none)?;
    let ghost all = rules@;
    let ghost ids = arule_ids(all);
    let mut out: Vec<ExportAttributeRule> = Vec::new();
    proof {
        lemma_left_over_start(by_rule@, cs, condition_key(), ids);
    }
    for rule in it: rules
        invariant
            it.seq() == all,
            ids == arule_ids(all),
            out@.len() == it.index(),
            left_over(by_rule@, cs, condition_key(), ids, it.index() as int),
            forall|i: int| 0 <= i < it.index() ==> conditioned(all, i, cs, #[trigger] out@[i]),
    {
        proof {
            assert(ids[it.index() as int] == rule.id);
            lemma_left_over_next(by_rule@, cs, condition_key(), ids, it.index() as int);
        }
        let mut rule: ExportAttributeRule = rule;
        if let Some(c) = by_rule.take(rule.id.value) {
            rule.conditions = c;
        }
        out.push(rule);
    }
    Ok(out)
}

} // verus!
