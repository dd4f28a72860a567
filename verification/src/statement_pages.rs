//! The pages of facts and derived facts, with the rows of other tables that belong to them.
use crate::groups::{
    gathered, left_over, lemma_gathered_push, lemma_left_over_next, lemma_left_over_start, share,
    Groups,
};
use crate::integrity::{
    foreign, judge, leaves, noted_if, tally_if, verdict, views, AppError, CrossKbViolation,
    ErrorView, ViolationView,
};
use crate::json::Json;
use crate::pages::{lemma_note_next, note_each};
use crate::rows::{
    ExportDerived, ExportFact, ExportPremise, ExportStatementQualifier, ExportTimeMention,
    FactQualifier,
};
use crate::text::opt_text;
use crate::uuid::Uuid;
use vstd::prelude::*;

verus! {

// ---- Properties of edges ----

/// A property of an edge as it is read, with the knowledge bases of its type and of its entity.
#[derive(Debug, Clone)]
pub struct ExportQualifierRow {
    pub fact_id: Uuid,
    pub qualifier_type_id: Uuid,
    pub key: Option<String>,
    pub label: Option<String>,
    pub value: Option<Json>,
    pub entity_id: Option<Uuid>,
    pub entity_name: Option<String>,
    pub type_kb: Option<Uuid>,
    pub entity_kb: Option<Uuid>,
    pub entity_merged: bool,
}

/// The fact that a property belongs to.
pub open spec fn qualifier_key() -> spec_fn(ExportQualifierRow) -> u128 {
    |r: ExportQualifierRow| r.fact_id.value
}

/// The references of a property that leave the knowledge base.
pub open spec fn qualifier_notes(kb_id: Uuid) -> spec_fn(
    Seq<ViolationView>,
    ExportQualifierRow,
) -> Seq<ViolationView> {
    |vs: Seq<ViolationView>, r: ExportQualifierRow|
        noted_if(
            noted_if(vs, "qualifier.type"@, leaves(r.type_kb, kb_id)),
            "qualifier.entity"@,
            r.entity_id is Some && leaves(r.entity_kb, kb_id),
        )
}

/// The references of a property to merged entities.
pub open spec fn qualifier_merged_notes(
) -> spec_fn(Seq<ViolationView>, ExportQualifierRow) -> Seq<ViolationView,
> {
    |vs: Seq<ViolationView>, r: ExportQualifierRow|
        noted_if(vs, "qualifier.entity(merged)"@, r.entity_id is Some && r.entity_merged)
}

/// What becomes of a page for its properties of edges.
pub open spec fn qualifiers_verdict(
    rows: Seq<ExportQualifierRow>,
    kb_id: Uuid,
) -> Option<ErrorView> {
    verdict(
        note_each(Seq::empty(), rows, qualifier_notes(kb_id)),
        note_each(Seq::empty(), rows, qualifier_merged_notes()),
    )
}

/// Whether the properties of edges stay within the knowledge base.
pub fn check_qualifiers(rows: &Vec<ExportQualifierRow>, kb_id: Uuid) -> (r: Result<(), AppError>)
    ensures
        match r {
            Ok(_) => qualifiers_verdict(rows@, kb_id) is None,
            Err(e) => qualifiers_verdict(rows@, kb_id) == Some(e@),
        },
{
    let ghost f = qualifier_notes(kb_id);
    let ghost g = qualifier_merged_notes();
    let mut violations: Vec<CrossKbViolation> = Vec::new();
    let mut unexported: Vec<CrossKbViolation> = Vec::new();
    let mut i: usize = 0;
    proof {
        assert(views(violations@) =~= Seq::empty());
        assert(views(unexported@) =~= Seq::empty());
    }
    while i < rows.len()
        invariant
            i <= rows@.len(),
            f == qualifier_notes(kb_id),
            g == qualifier_merged_notes(),
            views(violations@) == note_each(Seq::empty(), rows@.take(i as int), f),
            views(unexported@) == note_each(Seq::empty(), rows@.take(i as int), g),
        decreases rows@.len() - i,
    {
        proof {
            lemma_note_next(Seq::empty(), rows@, f, i as int);
            lemma_note_next(Seq::empty(), rows@, g, i as int);
        }
        let has_entity: bool = rows[i].entity_id.is_some();
        tally_if(&mut violations, "qualifier.type", foreign(rows[i].type_kb, kb_id));
        tally_if(
            &mut violations,
            "qualifier.entity",
            has_entity && foreign(rows[i].entity_kb, kb_id),
        );
        tally_if(
            &mut unexported,
            "qualifier.entity(merged)",
            has_entity && rows[i].entity_merged,
        );
        i += 1;
    }
    proof {
        assert(rows@.take(i as int) =~= rows@);
    }
    judge(&violations, &unexported)
}

/// Holds the properties of edges to the knowledge base, and gathers them by fact.
pub fn qualifiers_for_export(
    rows: Vec<ExportQualifierRow>,
    kb_id: Uuid,
) -> (r: Result<Groups<ExportQualifierRow>,
    AppError,
>)
    ensures
        match r {
            Ok(groups) => qualifiers_verdict(rows@, kb_id) is None && gathered(
                groups@,
                rows@,
                qualifier_key(),
            ),
            Err(e) => qualifiers_verdict(rows@, kb_id) == Some(e@),
        },
{
    check_qualifiers(&rows, kb_id)?;
    let mut groups: Groups<ExportQualifierRow> = Groups::new();
    let ghost all = rows@;
    for row in it: rows
        invariant
            it.seq() == all,
            gathered(groups@, all.take(it.index() as int), qualifier_key()),
    {
        proof {
            assert(all.take(it.index() + 1) =~= all.take(it.index() as int).push(row));
            lemma_gathered_push(groups@, all.take(it.index() as int), qualifier_key(), row);
        }
        groups.add_row(row.fact_id.value, row);
    }
    proof {
        assert(all.take(all.len() as int) =~= all);
    }
    Ok(groups)
}

/// The property that a row describes. A row that passed has a type, so key and label are there.
pub open spec fn describes(r: ExportQualifierRow, q: FactQualifier) -> bool {
    &&& q.qualifier_type_id == r.qualifier_type_id
    &&& q.key@ == opt_text(r.key).unwrap_or(Seq::empty())
    &&& q.label@ == opt_text(r.label).unwrap_or(Seq::empty())
    &&& q.value == r.value
    &&& q.entity_id == r.entity_id
    &&& q.entity_name == r.entity_name
}

/// The properties that rows describe, one for one.
pub open spec fn describe(rows: Seq<ExportQualifierRow>, qs: Seq<FactQualifier>) -> bool {
    rows.len() == qs.len() && forall|i: int| 0 <= i < rows.len() ==> describes(rows[i], #[trigger] qs[i])
}

fn to_qualifiers(rows: Vec<ExportQualifierRow>) -> (out: Vec<FactQualifier>)
    ensures
        describe(rows@, out@),
{
    let mut out: Vec<FactQualifier> = Vec::new();
    let ghost all = rows@;
    for row in it: rows
        invariant
            it.seq() == all,
            out@.len() == it.index(),
            forall|i: int| 0 <= i < it.index() ==> describes(all[i], #[trigger] out@[i]),
    {
        out.push(
            FactQualifier {
                qualifier_type_id: row.qualifier_type_id,
                key: match row.key {
                    Some(k) => k,
                    None => String::new(),
                },
                label: match row.label {
                    Some(l) => l,
                    None => String::new(),
                },
                value: row.value,
                entity_id: row.entity_id,
                entity_name: row.entity_name,
            },
        );
    }
    out
}

// ---- Properties of open statements ----

/// The statement that a property belongs to.
pub open spec fn property_key() -> spec_fn(ExportStatementQualifier) -> u128 {
    |r: ExportStatementQualifier| r.fact_id.value
}

/// The references of a property that leave the knowledge base.
pub open spec fn property_notes(kb_id: Uuid) -> spec_fn(
    Seq<ViolationView>,
    ExportStatementQualifier,
) -> Seq<ViolationView> {
    |vs: Seq<ViolationView>, r: ExportStatementQualifier|
        noted_if(vs, "squalifier.entity"@, r.entity_id is Some && leaves(r.entity_kb, kb_id))
}

/// The references of a property to merged entities.
pub open spec fn property_merged_notes() -> spec_fn(
    Seq<ViolationView>,
    ExportStatementQualifier,
) -> Seq<ViolationView> {
    |vs: Seq<ViolationView>, r: ExportStatementQualifier|
        noted_if(vs, "squalifier.entity(merged)"@, r.entity_id is Some && r.entity_merged)
}

/// What becomes of a page for its properties of open statements.
pub open spec fn properties_verdict(
    rows: Seq<ExportStatementQualifier>,
    kb_id: Uuid,
) -> Option<ErrorView> {
    verdict(
        note_each(Seq::empty(), rows, property_notes(kb_id)),
        note_each(Seq::empty(), rows, property_merged_notes()),
    )
}

/// Whether the properties of open statements stay within the knowledge base.
pub fn check_properties(rows: &Vec<ExportStatementQualifier>, kb_id: Uuid) -> (r: Result<(), AppError>)
    ensures
        match r {
            Ok(_) => properties_verdict(rows@, kb_id) is None,
            Err(e) => properties_verdict(rows@, kb_id) == Some(e@),
        },
{
    let ghost f = property_notes(kb_id);
    let ghost g = property_merged_notes();
    let mut violations: Vec<CrossKbViolation> = Vec::new();
    let mut unexported: Vec<CrossKbViolation> = Vec::new();
    let mut i: usize = 0;
    proof {
        assert(views(violations@) =~= Seq::empty());
        assert(views(unexported@) =~= Seq::empty());
    }
    while i < rows.len()
        invariant
            i <= rows@.len(),
            f == property_notes(kb_id),
            g == property_merged_notes(),
            views(violations@) == note_each(Seq::empty(), rows@.take(i as int), f),
            views(unexported@) == note_each(Seq::empty(), rows@.take(i as int), g),
        decreases rows@.len() - i,
    {
        proof {
            lemma_note_next(Seq::empty(), rows@, f, i as int);
            lemma_note_next(Seq::empty(), rows@, g, i as int);
        }
        let has_entity: bool = rows[i].entity_id.is_some();
        tally_if(
            &mut violations,
            "squalifier.entity",
            has_entity && foreign(rows[i].entity_kb, kb_id),
        );
        tally_if(
            &mut unexported,
            "squalifier.entity(merged)",
            has_entity && rows[i].entity_merged,
        );
        i += 1;
    }
    proof {
        assert(rows@.take(i as int) =~= rows@);
    }
    judge(&violations, &unexported)
}

/// Holds the properties of open statements to the knowledge base, and gathers them by statement.
pub fn statement_qualifiers_for_export(
    rows: Vec<ExportStatementQualifier>,
    kb_id: Uuid,
) -> (r: Result<Groups<ExportStatementQualifier>,
    AppError,
>)
    ensures
        match r {
            Ok(groups) => properties_verdict(rows@, kb_id) is None && gathered(
                groups@,
                rows@,
                property_key(),
            ),
            Err(e) => properties_verdict(rows@, kb_id) == Some(e@),
        },
{
    check_properties(&rows, kb_id)?;
    let mut groups: Groups<ExportStatementQualifier> = Groups::new();
    let ghost all = rows@;
    for row in it: rows
        invariant
            it.seq() == all,
            gathered(groups@, all.take(it.index() as int), property_key()),
    {
        proof {
            assert(all.take(it.index() + 1) =~= all.take(it.index() as int).push(row));
            lemma_gathered_push(groups@, all.take(it.index() as int), property_key(), row);
        }
        groups.add_row(row.fact_id.value, row);
    }
    proof {
        assert(all.take(all.len() as int) =~= all);
    }
    Ok(groups)
}

// ---- Time mentions ----

/// The statement that a time mention belongs to.
pub open spec fn mention_key() -> spec_fn(ExportTimeMention) -> u128 {
    |m: ExportTimeMention| m.fact_id.value
}

/// The violations of a time mention: it belongs to another knowledge base than its statement, or
/// its passage does.
pub open spec fn mention_notes(
    kb_id: Uuid,
) -> spec_fn(Seq<ViolationView>, ExportTimeMention) -> Seq<ViolationView,
> {
    |vs: Seq<ViolationView>, m: ExportTimeMention|
        noted_if(
            noted_if(vs, "timemention.fact"@, m.kb_id != kb_id),
            "timemention.chunk"@,
            leaves(m.chunk_kb, kb_id),
        )
}

/// What becomes of a page for its time mentions.
pub open spec fn mentions_verdict(rows: Seq<ExportTimeMention>, kb_id: Uuid) -> Option<ErrorView> {
    verdict(note_each(Seq::empty(), rows, mention_notes(kb_id)), Seq::empty())
}

/// Whether the time mentions stay within the knowledge base.
pub fn check_mentions(rows: &Vec<ExportTimeMention>, kb_id: Uuid) -> (r: Result<(), AppError>)
    ensures
        match r {
            Ok(_) => mentions_verdict(rows@, kb_id) is None,
            Err(e) => mentions_verdict(rows@, kb_id) == Some(e@),
        },
{
    let ghost f = mention_notes(kb_id);
    let mut violations: Vec<CrossKbViolation> = Vec::new();
    let none: Vec<CrossKbViolation> = Vec::new();
    let mut i: usize = 0;
    proof {
        assert(views(violations@) =~= Seq::empty());
        assert(views(none@) =~= Seq::empty());
    }
    while i < rows.len()
        invariant
            i <= rows@.len(),
            f == mention_notes(kb_id),
            views(violations@) == note_each(Seq::empty(), rows@.take(i as int), f),
        decreases rows@.len() - i,
    {
        proof {
            lemma_note_next(Seq::empty(), rows@, f, i as int);
        }
        tally_if(&mut violations, "timemention.fact", rows[i].kb_id != kb_id);
        tally_if(&mut violations, "timemention.chunk", foreign(rows[i].chunk_kb, kb_id));
        i += 1;
    }
    proof {
        assert(rows@.take(i as int) =~= rows@);
    }
    judge(&violations, &none)
}

/// Holds the time mentions to the knowledge base, and gathers them by statement.
pub fn time_mentions_for_export(
    rows: Vec<ExportTimeMention>,
    kb_id: Uuid,
) -> (r: Result<Groups<ExportTimeMention>,
    AppError,
>)
    ensures
        match r {
            Ok(groups) => mentions_verdict(rows@, kb_id) is None && gathered(
                groups@,
                rows@,
                mention_key(),
            ),
            Err(e) => mentions_verdict(rows@, kb_id) == Some(e@),
        },
{
    check_mentions(&rows, kb_id)?;
    let mut groups: Groups<ExportTimeMention> = Groups::new();
    let ghost all = rows@;
    for row in it: rows
        invariant
            it.seq() == all,
            gathered(groups@, all.take(it.index() as int), mention_key()),
    {
        proof {
            assert(all.take(it.index() + 1) =~= all.take(it.index() as int).push(row));
            lemma_gathered_push(groups@, all.take(it.index() as int), mention_key(), row);
        }
        groups.add_row(row.fact_id.value, row);
    }
    proof {
        assert(all.take(all.len() as int) =~= all);
    }
    Ok(groups)
}

// ---- Facts ----

/// The references of a fact that leave the knowledge base.
pub open spec fn fact_notes(
    kb_id: Uuid,
) -> spec_fn(Seq<ViolationView>, ExportFact) -> Seq<ViolationView,
> {
    |vs: Seq<ViolationView>, f: ExportFact|
        {
            let vs = noted_if(vs, "fact.subject"@, leaves(f.subject_kb, kb_id));
            let vs = noted_if(
                vs,
                "fact.object"@,
                f.object_id is Some && leaves(f.object_kb, kb_id),
            );
            let vs = noted_if(
                vs,
                "fact.predicate"@,
                f.predicate_id is Some && leaves(f.predicate_kb, kb_id),
            );
            let vs = noted_if(
                vs,
                "fact.supersedes"@,
                f.supersedes is Some && leaves(f.supersedes_kb, kb_id),
            );
            let vs = noted_if(vs, "fact.source"@, f.foreign_source);
            noted_if(vs, "evidence.document"@, f.foreign_document)
        }
}

/// The references of a fact to merged entities.
pub open spec fn fact_merged_notes(
) -> spec_fn(Seq<ViolationView>, ExportFact) -> Seq<ViolationView> {
    |vs: Seq<ViolationView>, f: ExportFact|
        noted_if(
            noted_if(vs, "fact.subject(merged)"@, f.subject_merged),
            "fact.object(merged)"@,
            f.object_id is Some && f.object_merged,
        )
}

/// What becomes of a page for its facts themselves.
pub open spec fn facts_verdict(facts: Seq<ExportFact>, kb_id: Uuid) -> Option<ErrorView> {
    verdict(
        note_each(Seq::empty(), facts, fact_notes(kb_id)),
        note_each(Seq::empty(), facts, fact_merged_notes()),
    )
}

/// Whether the facts of a page stay within the knowledge base.
pub fn check_facts(facts: &Vec<ExportFact>, kb_id: Uuid) -> (r: Result<(), AppError>)
    ensures
        match r {
            Ok(_) => facts_verdict(facts@, kb_id) is None,
            Err(e) => facts_verdict(facts@, kb_id) == Some(e@),
        },
{
    let ghost f = fact_notes(kb_id);
    let ghost g = fact_merged_notes();
    let mut violations: Vec<CrossKbViolation> = Vec::new();
    let mut unexported: Vec<CrossKbViolation> = Vec::new();
    let mut i: usize = 0;
    proof {
        assert(views(violations@) =~= Seq::empty());
        assert(views(unexported@) =~= Seq::empty());
    }
    while i < facts.len()
        invariant
            i <= facts@.len(),
            f == fact_notes(kb_id),
            g == fact_merged_notes(),
            views(violations@) == note_each(Seq::empty(), facts@.take(i as int), f),
            views(unexported@) == note_each(Seq::empty(), facts@.take(i as int), g),
        decreases facts@.len() - i,
    {
        proof {
            lemma_note_next(Seq::empty(), facts@, f, i as int);
            lemma_note_next(Seq::empty(), facts@, g, i as int);
        }
        let fact: &ExportFact = &facts[i];
        let has_object: bool = fact.object_id.is_some();
        tally_if(&mut violations, "fact.subject", foreign(fact.subject_kb, kb_id));
        tally_if(&mut unexported, "fact.subject(merged)", fact.subject_merged);
        tally_if(&mut violations, "fact.object", has_object && foreign(fact.object_kb, kb_id));
        tally_if(&mut unexported, "fact.object(merged)", has_object && fact.object_merged);
        tally_if(
            &mut violations,
            "fact.predicate",
            fact.predicate_id.is_some() && foreign(fact.predicate_kb, kb_id),
        );
        tally_if(
            &mut violations,
            "fact.supersedes",
            fact.supersedes.is_some() && foreign(fact.supersedes_kb, kb_id),
        );
        tally_if(&mut violations, "fact.source", fact.foreign_source);
        tally_if(&mut violations, "evidence.document", fact.foreign_document);
        i += 1;
    }
    proof {
        assert(facts@.take(i as int) =~= facts@);
    }
    judge(&violations, &unexported)
}

/// The identifiers of some facts.
pub open spec fn fact_ids(facts: Seq<ExportFact>) -> Seq<Uuid> {
    facts.map_values(|f: ExportFact| f.id)
}

/// Fact `i` of a page, with the rows of other tables that go to it. A list that no row goes to
/// stays as it was.
pub open spec fn completed(
    facts: Seq<ExportFact>,
    i: int,
    qualifiers: Seq<ExportQualifierRow>,
    properties: Seq<ExportStatementQualifier>,
    mentions: Seq<ExportTimeMention>,
    out: ExportFact,
) -> bool {
    let ids = fact_ids(facts);
    let qs = share(ids, i, qualifiers, qualifier_key());
    let ps = share(ids, i, properties, property_key());
    let ms = share(ids, i, mentions, mention_key());
    &&& out == (ExportFact {
        qualifiers: out.qualifiers,
        statement_qualifiers: out.statement_qualifiers,
        time_mentions: out.time_mentions,
        ..facts[i]
    })
    &&& if qs.len() > 0 {
        describe(qs, out.qualifiers@)
    } else {
        out.qualifiers == facts[i].qualifiers
    }
    &&& if ps.len() > 0 {
        out.statement_qualifiers@ == ps
    } else {
        out.statement_qualifiers == facts[i].statement_qualifiers
    }
    &&& if ms.len() > 0 {
        out.time_mentions@ == ms
    } else {
        out.time_mentions == facts[i].time_mentions
    }
}

fn complete_facts(
    facts: Vec<ExportFact>,
    qualifiers: Groups<ExportQualifierRow>,
    properties: Groups<ExportStatementQualifier>,
    mentions: Groups<ExportTimeMention>,
    Ghost(qs): Ghost<Seq<ExportQualifierRow>>,
    Ghost(ps): Ghost<Seq<ExportStatementQualifier>>,
    Ghost(ms): Ghost<Seq<ExportTimeMention>>,
) -> (out: Vec<ExportFact>)
    requires
        gathered(qualifiers@, qs, qualifier_key()),
        gathered(properties@, ps, property_key()),
        gathered(mentions@, ms, mention_key()),
    ensures
        out@.len() == facts@.len(),
        forall|i: int|
            0 <= i < facts@.len() ==> completed(facts@, i, qs, ps, ms, #[trigger] out@[i]),
{
    let mut qualifiers: Groups<ExportQualifierRow> = qualifiers;
    let mut properties: Groups<ExportStatementQualifier> = properties;
    let mut mentions: Groups<ExportTimeMention> = mentions;
    let ghost all = facts@;
    let ghost ids = fact_ids(all);
    let mut out: Vec<ExportFact> = Vec::new();
    proof {
        lemma_left_over_start(qualifiers@, qs, qualifier_key(), ids);
        lemma_left_over_start(properties@, ps, property_key(), ids);
        lemma_left_over_start(mentions@, ms, mention_key(), ids);
    }
    for fact in it: facts
        invariant
            it.seq() == all,
            ids == fact_ids(all),
            out@.len() == it.index(),
            left_over(qualifiers@, qs, qualifier_key(), ids, it.index() as int),
            left_over(properties@, ps, property_key(), ids, it.index() as int),
            left_over(mentions@, ms, mention_key(), ids, it.index() as int),
            forall|i: int|
                0 <= i < it.index() ==> completed(all, i, qs, ps, ms, #[trigger] out@[i]),
    {
        proof {
            assert(ids[it.index() as int] == fact.id);
            lemma_left_over_next(qualifiers@, qs, qualifier_key(), ids, it.index() as int);
            lemma_left_over_next(properties@, ps, property_key(), ids, it.index() as int);
            lemma_left_over_next(mentions@, ms, mention_key(), ids, it.index() as int);
        }
        let mut fact: ExportFact = fact;
        let id: u128 = fact.id.value;
        if let Some(q) = qualifiers.take(id) {
            fact.qualifiers = to_qualifiers(q);
        }
        if let Some(p) = properties.take(id) {
            fact.statement_qualifiers = p;
        }
        if let Some(m) = mentions.take(id) {
            fact.time_mentions = m;
        }
        out.push(fact);
    }
    out
}

/// Holds a page of facts to the knowledge base, and completes each fact with the rows of other
/// tables that belong to it. Retracted facts stay in: they carry the times at which they held.
pub fn facts_page(
    facts: Vec<ExportFact>,
    qualifiers: Vec<ExportQualifierRow>,
    properties: Vec<ExportStatementQualifier>,
    mentions: Vec<ExportTimeMention>,
    kb_id: Uuid,
) -> (r: Result<Vec<ExportFact>, AppError>)
    ensures
        match facts_verdict(facts@, kb_id) {
            Some(e) => r matches Err(err) && err@ == e,
            None => match qualifiers_verdict(qualifiers@, kb_id) {
                Some(e) => r matches Err(err) && err@ == e,
                None => match properties_verdict(properties@, kb_id) {
                    Some(e) => r matches Err(err) && err@ == e,
                    None => match mentions_verdict(mentions@, kb_id) {
                        Some(e) => r matches Err(err) && err@ == e,
                        None => r matches Ok(out) && out@.len() == facts@.len() && forall|i: int|
                            0 <= i < facts@.len() ==> completed(
                                facts@,
                                i,
                                qualifiers@,
                                properties@,
                                mentions@,
                                #[trigger] out@[i],
                            ),
                    },
                },
            },
        },
{
    check_facts(&facts, kb_id)?;
    let ghost qs = qualifiers@;
    let ghost ps = properties@;
    let ghost ms = mentions@;
    let by_fact = qualifiers_for_export(qualifiers, kb_id)?;
    let by_statement = statement_qualifiers_for_export(properties, kb_id)?;
    let by_mention = time_mentions_for_export(mentions, kb_id)?;
    Ok(
        complete_facts(
            facts,
            by_fact,
            by_statement,
            by_mention,
            Ghost(qs),
            Ghost(ps),
            Ghost(ms),
        ),
    )
}

// ---- Derived facts ----

/// A premise as it is read.
#[derive(Debug, Clone)]
pub struct ExportPremiseRow {
    pub derived_fact_id: Uuid,
    pub seq: i32,
    pub premise_fact_id: Option<Uuid>,
    pub premise_derived_id: Option<Uuid>,
}

/// The derived fact that a premise belongs to.
pub open spec fn premise_key() -> spec_fn(ExportPremiseRow) -> u128 {
    |r: ExportPremiseRow| r.derived_fact_id.value
}

/// The premise that a row describes.
pub open spec fn premise_of(r: ExportPremiseRow) -> ExportPremise {
    ExportPremise { seq: r.seq, fact_id: r.premise_fact_id, derived_id: r.premise_derived_id }
}

/// The premises that rows describe, one for one.
pub open spec fn premises_of(rows: Seq<ExportPremiseRow>) -> Seq<ExportPremise> {
    rows.map_values(|r: ExportPremiseRow| premise_of(r))
}

/// Gathers premises by derived fact, in the order of the proof. Whether they leave the knowledge
/// base is marked on the derived fact itself.
pub fn premises_for_export(rows: Vec<ExportPremiseRow>) -> (groups: Groups<ExportPremiseRow>)
    ensures
        gathered(groups@, rows@, premise_key()),
{
    let mut groups: Groups<ExportPremiseRow> = Groups::new();
    let ghost all = rows@;
    for row in it: rows
        invariant
            it.seq() == all,
            gathered(groups@, all.take(it.index() as int), premise_key()),
    {
        proof {
            assert(all.take(it.index() + 1) =~= all.take(it.index() as int).push(row));
            lemma_gathered_push(groups@, all.take(it.index() as int), premise_key(), row);
        }
        groups.add_row(row.derived_fact_id.value, row);
    }
    proof {
        assert(all.take(all.len() as int) =~= all);
    }
    groups
}

fn to_premises(rows: Vec<ExportPremiseRow>) -> (out: Vec<ExportPremise>)
    ensures
        out@ == premises_of(rows@),
{
    let mut out: Vec<ExportPremise> = Vec::new();
    let ghost all = rows@;
    for row in it: rows
        invariant
            it.seq() == all,
            out@ == premises_of(all.take(it.index() as int)),
    {
        proof {
            assert(premises_of(all.take(it.index() + 1)) =~= premises_of(
                all.take(it.index() as int),
            ).push(premise_of(row)));
        }
        out.push(
            ExportPremise {
                seq: row.seq,
                fact_id: row.premise_fact_id,
                derived_id: row.premise_derived_id,
            },
        );
    }
    proof {
        assert(all.take(all.len() as int) =~= all);
    }
    out
}

/// The references of a derived fact that leave the knowledge base.
pub open spec fn derived_notes(
    kb_id: Uuid,
) -> spec_fn(Seq<ViolationView>, ExportDerived) -> Seq<ViolationView,
> {
    |vs: Seq<ViolationView>, d: ExportDerived|
        {
            let vs = noted_if(vs, "derived.subject"@, leaves(d.subject_kb, kb_id));
            let vs = noted_if(
                vs,
                "derived.object"@,
                d.object_id is Some && leaves(d.object_kb, kb_id),
            );
            let vs = noted_if(vs, "derived.predicate"@, leaves(d.predicate_kb, kb_id));
            let vs = noted_if(
                vs,
                "derived.rule"@,
                d.rule_id is Some && leaves(d.rule_kb, kb_id),
            );
            let vs = noted_if(
                vs,
                "derived.attribute_rule"@,
                d.attribute_rule_id is Some && leaves(d.attribute_rule_kb, kb_id),
            );
            let vs = noted_if(vs, "derivation.premise_fact"@, d.foreign_fact_premise);
            noted_if(vs, "derivation.premise_derived"@, d.foreign_derived_premise)
        }
}

/// The references of a derived fact to merged entities.
pub open spec fn derived_merged_notes(
) -> spec_fn(Seq<ViolationView>, ExportDerived) -> Seq<ViolationView,
> {
    |vs: Seq<ViolationView>, d: ExportDerived|
        noted_if(
            noted_if(vs, "derived.subject(merged)"@, d.subject_merged),
            "derived.object(merged)"@,
            d.object_id is Some && d.object_merged,
        )
}

/// What becomes of a page of derived facts.
pub open spec fn deriveds_verdict(page: Seq<ExportDerived>, kb_id: Uuid) -> Option<ErrorView> {
    verdict(
        note_each(Seq::empty(), page, derived_notes(kb_id)),
        note_each(Seq::empty(), page, derived_merged_notes()),
    )
}

/// Whether the derived facts of a page stay within the knowledge base.
pub fn check_derived(page: &Vec<ExportDerived>, kb_id: Uuid) -> (r: Result<(), AppError>)
    ensures
        match r {
            Ok(_) => deriveds_verdict(page@, kb_id) is None,
            Err(e) => deriveds_verdict(page@, kb_id) == Some(e@),
        },
{
    let ghost f = derived_notes(kb_id);
    let ghost g = derived_merged_notes();
    let mut violations: Vec<CrossKbViolation> = Vec::new();
    let mut unexported: Vec<CrossKbViolation> = Vec::new();
    let mut i: usize = 0;
    proof {
        assert(views(violations@) =~= Seq::empty());
        assert(views(unexported@) =~= Seq::empty());
    }
    while i < page.len()
        invariant
            i <= page@.len(),
            f == derived_notes(kb_id),
            g == derived_merged_notes(),
            views(violations@) == note_each(Seq::empty(), page@.take(i as int), f),
            views(unexported@) == note_each(Seq::empty(), page@.take(i as int), g),
        decreases page@.len() - i,
    {
        proof {
            lemma_note_next(Seq::empty(), page@, f, i as int);
            lemma_note_next(Seq::empty(), page@, g, i as int);
        }
        let d: &ExportDerived = &page[i];
        let has_object: bool = d.object_id.is_some();
        tally_if(&mut violations, "derived.subject", foreign(d.subject_kb, kb_id));
        tally_if(&mut unexported, "derived.subject(merged)", d.subject_merged);
        tally_if(&mut violations, "derived.object", has_object && foreign(d.object_kb, kb_id));
        tally_if(&mut unexported, "derived.object(merged)", has_object && d.object_merged);
        tally_if(&mut violations, "derived.predicate", foreign(d.predicate_kb, kb_id));
        tally_if(
            &mut violations,
            "derived.rule",
            d.rule_id.is_some() && foreign(d.rule_kb, kb_id),
        );
        tally_if(
            &mut violations,
            "derived.attribute_rule",
            d.attribute_rule_id.is_some() && foreign(d.attribute_rule_kb, kb_id),
        );
        tally_if(&mut violations, "derivation.premise_fact", d.foreign_fact_premise);
        tally_if(&mut violations, "derivation.premise_derived", d.foreign_derived_premise);
        i += 1;
    }
    proof {
        assert(page@.take(i as int) =~= page@);
    }
    judge(&violations, &unexported)
}

/// The identifiers of some derived facts.
pub open spec fn derived_ids(page: Seq<ExportDerived>) -> Seq<Uuid> {
    page.map_values(|d: ExportDerived| d.id)
}

/// Derived fact `i` of a page, with the premises that go to it.
pub open spec fn proved(
    page: Seq<ExportDerived>,
    i: int,
    premises: Seq<ExportPremiseRow>,
    out: ExportDerived,
) -> bool {
    let ps = share(derived_ids(page), i, premises, premise_key());
    &&& out == (ExportDerived { premises: out.premises, ..page[i] })
    &&& if ps.len() > 0 {
        out.premises@ == premises_of(ps)
    } else {
        out.premises == page[i].premises
    }
}

/// Holds a page of derived facts to the knowledge base, and completes each with its premises.
pub fn derived_page(
    page: Vec<ExportDerived>,
    premises: Vec<ExportPremiseRow>,
    kb_id: Uuid,
) -> (r: Result<Vec<ExportDerived>, AppError>)
    ensures
        match deriveds_verdict(page@, kb_id) {
            Some(e) => r matches Err(err) && err@ == e,
            None => r matches Ok(out) && out@.len() == page@.len() && forall|i: int|
                0 <= i < page@.len() ==> proved(page@, i, premises@, #[trigger] out@[i]),
        },
{
    check_derived(&page, kb_id)?;
    let ghost all = page@;
    let ghost ps = premises@;
    let ghost ids = derived_ids(all);
    let mut by_derived: Groups<ExportPremiseRow> = premises_for_export(premises);
    let mut out: Vec<ExportDerived> = Vec::new();
    proof {
        lemma_left_over_start(by_derived@, ps, premise_key(), ids);
    }
    for d in it: page
        invariant
            it.seq() == all,
            ids == derived_ids(all),
            out@.len() == it.index(),
            left_over(by_derived@, ps, premise_key(), ids, it.index() as int),
            forall|i: int| 0 <= i < it.index() ==> proved(all, i, ps, #[trigger] out@[i]),
    {
        proof {
            assert(ids[it.index() as int] == d.id);
            lemma_left_over_next(by_derived@, ps, premise_key(), ids, it.index() as int);
        }
        let mut d: ExportDerived = d;
        if let Some(p) = by_derived.take(d.id.value) {
            d.premises = to_premises(p);
        }
        out.push(d);
    }
    Ok(out)
}

} // verus!
