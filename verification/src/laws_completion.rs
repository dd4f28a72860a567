//! What a completed row holds: its own fields, and exactly the rows of other tables that belong to it.
use crate::groups::{belonging, first_of};
use crate::rows::{
    ExportAttributeRule, ExportDerived, ExportFact, ExportRuleCondition, ExportStatementQualifier,
    ExportTimeMention,
};
use crate::rule_pages::{arule_ids, condition_key, conditioned};
use crate::statement_pages::{
    completed, derived_ids, fact_ids, mention_key, premise_key, property_key, proved,
    qualifier_key, ExportPremiseRow, ExportQualifierRow,
};
use vstd::prelude::*;

verus! {

proof fn lemma_belonging<T>(rows: Seq<T>, key: spec_fn(T) -> u128, id: u128, p: spec_fn(T) -> bool)
    requires
        forall|r: T| #[trigger] p(r) == (key(r) == id),
    ensures
        belonging(rows, key, id) == rows.filter(p),
    decreases rows.len(),
{
    reveal(Seq::filter);
    if rows.len() > 0 {
        lemma_belonging(rows.drop_last(), key, id, p);
        assert(p(rows.last()) == (key(rows.last()) == id));
    }
}

/// A fact of a page keeps all its fields, and gets exactly the properties of the edge, the properties
/// and the time mentions whose rows name it, in their order. A list that no row belongs to stays as it
/// was. (Should two facts of a page have one identifier, the first gets the rows.)
pub proof fn fact_gets_its_own_rows(
    facts: Seq<ExportFact>,
    i: int,
    qualifiers: Seq<ExportQualifierRow>,
    properties: Seq<ExportStatementQualifier>,
    mentions: Seq<ExportTimeMention>,
    out: ExportFact,
)
    requires
        0 <= i < facts.len(),
        completed(facts, i, qualifiers, properties, mentions, out),
        forall|j: int| 0 <= j < i ==> (#[trigger] facts[j]).id != facts[i].id,
    ensures
        out == (ExportFact {
            qualifiers: out.qualifiers,
            statement_qualifiers: out.statement_qualifiers,
            time_mentions: out.time_mentions,
            ..facts[i]
        }),
        ({
            let own = qualifiers.filter(|q: ExportQualifierRow| q.fact_id == facts[i].id);
            if own.len() == 0 {
                out.qualifiers == facts[i].qualifiers
            } else {
                &&& out.qualifiers@.len() == own.len()
                &&& forall|k: int|
                    #![trigger out.qualifiers@[k]]
                    0 <= k < own.len() ==> {
                        &&& out.qualifiers@[k].qualifier_type_id == own[k].qualifier_type_id
                        &&& out.qualifiers@[k].value == own[k].value
                        &&& out.qualifiers@[k].entity_id == own[k].entity_id
                        &&& out.qualifiers@[k].entity_name == own[k].entity_name
                        &&& own[k].key matches Some(s) ==> out.qualifiers@[k].key@ == s@
                        &&& own[k].key is None ==> out.qualifiers@[k].key@.len() == 0
                        &&& own[k].label matches Some(s) ==> out.qualifiers@[k].label@ == s@
                        &&& own[k].label is None ==> out.qualifiers@[k].label@.len() == 0
                    }
            }
        }),
        ({
            let own = properties.filter(|p: ExportStatementQualifier| p.fact_id == facts[i].id);
            if own.len() == 0 {
                out.statement_qualifiers == facts[i].statement_qualifiers
            } else {
                out.statement_qualifiers@ == own
            }
        }),
        ({
            let own = mentions.filter(|m: ExportTimeMention| m.fact_id == facts[i].id);
            if own.len() == 0 {
                out.time_mentions == facts[i].time_mentions
            } else {
                out.time_mentions@ == own
            }
        }),
{
    let id = facts[i].id;
    assert(first_of(fact_ids(facts), i));
    lemma_belonging(
        qualifiers,
        qualifier_key(),
        id.value,
        |q: ExportQualifierRow| q.fact_id == facts[i].id,
    );
    lemma_belonging(
        properties,
        property_key(),
        id.value,
        |p: ExportStatementQualifier| p.fact_id == facts[i].id,
    );
    lemma_belonging(
        mentions,
        mention_key(),
        id.value,
        |m: ExportTimeMention| m.fact_id == facts[i].id,
    );
}

/// A derived fact of a page keeps all its fields, and gets exactly the premises whose rows name it,
/// in their order, each with its place in the proof and the fact that it is.
pub proof fn derived_fact_gets_its_own_premises(
    page: Seq<ExportDerived>,
    i: int,
    premises: Seq<ExportPremiseRow>,
    out: ExportDerived,
)
    requires
        0 <= i < page.len(),
        proved(page, i, premises, out),
        forall|j: int| 0 <= j < i ==> (#[trigger] page[j]).id != page[i].id,
    ensures
        out == (ExportDerived { premises: out.premises, ..page[i] }),
        ({
            let own = premises.filter(|p: ExportPremiseRow| p.derived_fact_id == page[i].id);
            if own.len() == 0 {
                out.premises == page[i].premises
            } else {
                &&& out.premises@.len() == own.len()
                &&& forall|k: int|
                    #![trigger out.premises@[k]]
                    0 <= k < own.len() ==> {
                        &&& out.premises@[k].seq == own[k].seq
                        &&& out.premises@[k].fact_id == own[k].premise_fact_id
                        &&& out.premises@[k].derived_id == own[k].premise_derived_id
                    }
            }
        }),
{
    assert(first_of(derived_ids(page), i));
    lemma_belonging(
        premises,
        premise_key(),
        page[i].id.value,
        |p: ExportPremiseRow| p.derived_fact_id == page[i].id,
    );
}

/// A business rule keeps all its fields, and gets exactly the conditions whose rows name it, in their
/// order.
pub proof fn rule_gets_its_own_conditions(
    rules: Seq<ExportAttributeRule>,
    i: int,
    conditions: Seq<ExportRuleCondition>,
    out: ExportAttributeRule,
)
    requires
        0 <= i < rules.len(),
        conditioned(rules, i, conditions, out),
        forall|j: int| 0 <= j < i ==> (#[trigger] rules[j]).id != rules[i].id,
    ensures
        out == (ExportAttributeRule { conditions: out.conditions, ..rules[i] }),
        ({
            let own = conditions.filter(|c: ExportRuleCondition| c.rule_id == rules[i].id);
            if own.len() == 0 {
                out.conditions == rules[i].conditions
            } else {
                out.conditions@ == own
            }
        }),
{
    assert(first_of(arule_ids(rules), i));
    lemma_belonging(
        conditions,
        condition_key(),
        rules[i].id.value,
        |c: ExportRuleCondition| c.rule_id == rules[i].id,
    );
}

} // verus!
