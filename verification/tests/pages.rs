//! The pages of an export: what passes, what is refused, and for which reasons.
use ledger_rdf::expr::expr_predicate_ids;
use ledger_rdf::integrity::{
    cross_kb_error, foreign, judge, provenance_integrity, tally, unexported_error, AppError,
    CrossKbViolation, ScanViolation,
};
use ledger_rdf::json::Json;
use ledger_rdf::pages::{
    chunks_page, classes, document_versions_page, entities_page, evidence_page, relations, rules,
    PAGE,
};
use ledger_rdf::rows::{
    ExportAttributeRule, ExportChunk, ExportClass, ExportDerived, ExportDocumentVersion,
    ExportEntity, ExportEvidence, ExportFact, ExportPremise, ExportRelation, ExportRule,
    ExportRuleCondition, ExportStatementQualifier, ExportTimeMention,
};
use ledger_rdf::rule_pages::{attribute_rules, embedded_predicates};
use ledger_rdf::statement_pages::{
    check_derived, check_facts, check_mentions, check_properties, check_qualifiers, derived_page,
    facts_page, ExportPremiseRow, ExportQualifierRow,
};
use ledger_rdf::time::DateTime;
use ledger_rdf::uuid::Uuid;

fn kb() -> Uuid {
    Uuid::parse_str("01a06dc4-f40a-7013-b09f-1b499e2e7441").unwrap()
}

fn id(n: u8) -> Uuid {
    Uuid::from_u128(u128::from_be_bytes([n; 16]))
}

fn at(s: &str) -> DateTime {
    let t: chrono::DateTime<chrono::Utc> = s.parse().unwrap();
    DateTime::from_timestamp(t.timestamp(), t.timestamp_subsec_nanos()).unwrap()
}

fn conf(c: f32) -> String {
    format!("{c:.2}")
}

fn json_of(v: serde_json::Value) -> Json {
    match v {
        serde_json::Value::Null => Json::Null,
        serde_json::Value::Bool(b) => Json::Bool(b),
        serde_json::Value::Number(n) => Json::Number(n),
        serde_json::Value::String(s) => Json::Text(s),
        serde_json::Value::Array(a) => Json::Array(a.into_iter().map(json_of).collect()),
        serde_json::Value::Object(o) => {
            Json::Object(o.into_iter().map(|(k, v)| (k, json_of(v))).collect())
        }
    }
}

fn j(s: &str) -> Json {
    json_of(serde_json::from_str(s).unwrap())
}

fn class(n: u8, key: &str, iri: Option<&str>) -> ExportClass {
    ExportClass {
        id: id(n),
        key: key.into(),
        label: key.into(),
        description: String::new(),
        iri: iri.map(str::to_string),
        builtin: false,
        parents: vec![],
        primary_parents: vec![],
        disjoint: vec![],
        updated_at: at("2026-01-01T00:00:00Z"),
    }
}

fn relation(n: u8, key: &str, iri: Option<&str>, kind: &str) -> ExportRelation {
    ExportRelation {
        id: id(n),
        key: key.into(),
        label: key.into(),
        description: String::new(),
        iri: iri.map(str::to_string),
        kind: kind.into(),
        datatype: (kind == "attribute").then_some("number".to_string()),
        unit: None,
        temporal: "state".into(),
        functional: true,
        inverse_functional: false,
        is_transitive: false,
        is_symmetric: false,
        is_asymmetric: false,
        is_irreflexive: false,
        builtin: false,
        inverse_of: None,
        sub_property_of: None,
        qualifiers: vec![],
        domains: vec![],
        ranges: vec![],
        updated_at: at("2026-01-01T00:00:00Z"),
    }
}

fn fact(n: u8) -> ExportFact {
    ExportFact {
        qualifiers: Vec::new(),
        id: id(n),
        subject_id: id(10),
        predicate_id: Some(id(2)),
        surface_predicate: None,
        object_id: Some(id(11)),
        object_value: None,
        layer: "typed".into(),
        phrase: None,
        source_statements: vec![],
        foreign_source: false,
        statement_qualifiers: vec![],
        time_mentions: vec![],
        valid_from_grade: None,
        valid_from: None,
        valid_from_precision: None,
        valid_to: None,
        valid_to_precision: None,
        holds_from: Some(at("2026-01-01T00:00:00Z")),
        holds_to: None,
        attested_from: at("2026-01-01T00:00:00Z"),
        attested_to: None,
        end_derived: false,
        rule_derived: false,
        recorded_at: at("2026-01-01T00:00:00Z"),
        invalidated_at: None,
        confidence: conf(0.9),
        supersedes: None,
        documents: vec![],
        quotes: vec![],
        quote_origins: vec![],
        subject_kb: Some(kb()),
        object_kb: Some(kb()),
        predicate_kb: Some(kb()),
        supersedes_kb: None,
        foreign_document: false,
        subject_merged: false,
        object_merged: false,
    }
}

fn derived(n: u8) -> ExportDerived {
    ExportDerived {
        id: id(n),
        subject_id: id(10),
        predicate_id: id(2),
        object_id: Some(id(11)),
        object_value: None,
        rule_id: Some(id(8)),
        attribute_rule_id: None,
        valid_from: None,
        valid_from_precision: None,
        valid_to: None,
        valid_to_precision: None,
        derived_at: at("2026-02-01T00:00:00Z"),
        invalidated_at: None,
        confidence: conf(0.8),
        premises: vec![ExportPremise { seq: 1, fact_id: Some(id(5)), derived_id: None }],
        subject_kb: Some(kb()),
        object_kb: Some(kb()),
        predicate_kb: Some(kb()),
        rule_kb: Some(kb()),
        attribute_rule_kb: None,
        foreign_fact_premise: false,
        foreign_derived_premise: false,
        subject_merged: false,
        object_merged: false,
    }
}

fn chunk(n: u8) -> ExportChunk {
    ExportChunk {
        id: id(n),
        document_id: id(12),
        seq: 3,
        heading: Some("Q3 review".into()),
        char_start: 120,
        char_end: 204,
        doc_version: 2,
        version_row: false,
        superseded_at: None,
        extracted_at: None,
        origin: "stated".into(),
        origin_model: None,
        anchor: None,
        created_at: at("2026-01-01T00:00:00Z"),
        document_kb: Some(kb()),
    }
}

fn elsewhere() -> Uuid {
    id(200)
}

fn cross(e: AppError) -> String {
    assert_eq!(e.code, "cross_kb_provenance");
    assert_eq!(
        e.message,
        "export refused: KB-scoped provenance points outside the knowledge base"
    );
    e.detail
}

fn unexported(e: AppError) -> String {
    assert_eq!(e.code, "unexported_target");
    assert_eq!(
        e.message,
        "export refused: a reference points at a row that is not in this KB's exported set"
    );
    e.detail
}

fn arule(n: u8, expr: Option<Json>) -> ExportAttributeRule {
    ExportAttributeRule {
        id: id(n),
        name: "rule".into(),
        description: String::new(),
        conclusion: "computed".into(),
        subject_type_id: id(1),
        conclude_type_id: None,
        conclude_predicate_id: Some(id(4)),
        conclude_value: None,
        conclude_expr: expr,
        enabled: false,
        conditions: vec![],
        subject_type_kb: Some(kb()),
        conclude_type_kb: None,
        conclude_predicate_kb: Some(kb()),
    }
}

fn condition(rule: u8, seq: i32, operand: Option<Json>) -> ExportRuleCondition {
    ExportRuleCondition {
        id: id(50),
        rule_id: id(rule),
        group_seq: 0,
        seq,
        predicate_id: id(4),
        op: "lte".into(),
        operand,
        predicate_kb: Some(kb()),
    }
}

fn qualifier(fact: u8, key: &str) -> ExportQualifierRow {
    ExportQualifierRow {
        fact_id: id(fact),
        qualifier_type_id: id(4),
        key: Some(key.into()),
        label: None,
        value: Some(j("1")),
        entity_id: None,
        entity_name: None,
        type_kb: Some(kb()),
        entity_kb: None,
        entity_merged: false,
    }
}

fn property(fact: u8, role: &str) -> ExportStatementQualifier {
    ExportStatementQualifier {
        fact_id: id(fact),
        role: role.into(),
        value: None,
        entity_id: Some(id(11)),
        entity_kb: Some(kb()),
        entity_merged: false,
    }
}

fn mention(fact: u8, start: i32) -> ExportTimeMention {
    ExportTimeMention {
        id: id(40),
        kb_id: kb(),
        fact_id: id(fact),
        chunk_id: id(13),
        role: "when".into(),
        text: "last year".into(),
        char_start: start,
        shape: None,
        reference: None,
        granularity: None,
        grade: None,
        resolved_from: None,
        resolved_from_precision: None,
        resolved_to: None,
        resolved_to_precision: None,
        resolved_at: None,
        recorded_at: at("2026-02-15T00:00:00Z"),
        chunk_kb: Some(kb()),
    }
}

fn premise(of: u8, seq: i32) -> ExportPremiseRow {
    ExportPremiseRow {
        derived_fact_id: id(of),
        seq,
        premise_fact_id: Some(id(5)),
        premise_derived_id: None,
    }
}

fn facts_alone(facts: Vec<ExportFact>) -> Result<Vec<ExportFact>, AppError> {
    facts_page(facts, vec![], vec![], vec![], kb())
}

#[test]
fn errors_say_which_edges_and_how_many_rows() {
    let mut vs: Vec<CrossKbViolation> = vec![];
    assert_eq!(cross(cross_kb_error(&vs)), "");
    tally(&mut vs, "chunk.document", 0);
    tally(&mut vs, "chunk.document", -1);
    assert!(vs.is_empty());
    tally(&mut vs, "chunk.document", 1);
    assert_eq!(unexported(unexported_error(&vs)), "chunk.document: 1 row(s)");
    tally(&mut vs, "fact.subject", 120);
    assert_eq!(
        cross(cross_kb_error(&vs)),
        "chunk.document: 1 row(s); fact.subject: 120 row(s)"
    );
}

#[test]
fn references_that_leave_come_before_those_that_are_not_exported() {
    let bad = vec![CrossKbViolation { edge: "a".into(), rows: 1 }];
    let none: Vec<CrossKbViolation> = vec![];
    assert!(judge(&none, &none).is_ok());
    assert_eq!(cross(judge(&bad, &bad).unwrap_err()), "a: 1 row(s)");
    assert_eq!(unexported(judge(&none, &bad).unwrap_err()), "a: 1 row(s)");
}

#[test]
fn a_missing_row_is_as_foreign_as_one_of_another_knowledge_base() {
    assert!(!foreign(Some(kb()), kb()));
    assert!(foreign(Some(elsewhere()), kb()));
    assert!(foreign(None, kb()));
}

#[test]
fn a_scan_is_judged_by_its_kinds() {
    let line = |edge: &str, kind: &str, rows| ScanViolation {
        edge: edge.into(),
        kind: kind.into(),
        rows,
    };
    assert!(provenance_integrity(&vec![]).is_ok());
    assert!(provenance_integrity(&vec![line("x", "other", 3)]).is_ok());
    assert_eq!(
        unexported(
            provenance_integrity(&vec![line("fact.object(merged)", "unexported", 2)]).unwrap_err()
        ),
        "fact.object(merged): 2 row(s)"
    );
    let scan = vec![
        line("fact.object(merged)", "unexported", 2),
        line("condition.predicate", "cross_kb", 1),
        line("rule.predicate", "cross_kb", 4),
    ];
    assert_eq!(
        cross(provenance_integrity(&scan).unwrap_err()),
        "condition.predicate: 1 row(s); rule.predicate: 4 row(s)"
    );
}

#[test]
fn a_page_is_five_hundred_rows() {
    assert_eq!(PAGE, 500);
}

#[test]
fn classes_refer_to_each_other_only() {
    let mut well = class(30, "well", None);
    well.parents = vec![id(1), id(31)];
    well.disjoint = vec![id(1)];
    let person = class(1, "person", None);
    let team = class(31, "team", None);
    let out = classes(vec![well.clone(), person.clone(), team]).unwrap();
    assert_eq!(out.len(), 3);
    assert_eq!(out[0].parents, vec![id(1), id(31)]);
    well.disjoint = vec![id(98), id(1), id(99)];
    assert_eq!(
        cross(classes(vec![well, person]).unwrap_err()),
        "class.parent: 1 row(s); class.disjoint: 2 row(s)"
    );
}

#[test]
fn relations_refer_to_own_classes_and_relations_only() {
    let own_types = vec![id(1), id(3)];
    let mut spouse = relation(20, "spouse", None, "relation");
    spouse.domains = vec![id(1)];
    spouse.ranges = vec![id(3)];
    spouse.inverse_of = Some(id(20));
    spouse.qualifiers = vec![id(20)];
    assert_eq!(relations(vec![spouse.clone()], &own_types).unwrap().len(), 1);
    spouse.domains = vec![id(1), id(9)];
    spouse.ranges = vec![id(9), id(9)];
    spouse.inverse_of = Some(id(21));
    spouse.sub_property_of = Some(id(22));
    spouse.qualifiers = vec![id(20), id(4)];
    assert_eq!(
        cross(relations(vec![spouse], &own_types).unwrap_err()),
        "relation.domain: 1 row(s); relation.range: 2 row(s); relation.inverse: 1 row(s); \
         relation.sub_property: 1 row(s); relation.qualifier: 1 row(s)"
    );
}

#[test]
fn rules_are_on_own_predicates_only() {
    let rule = |predicate_kb| ExportRule {
        id: id(8),
        kind: "transitive".into(),
        predicate_id: id(2),
        predicate_kb,
    };
    assert_eq!(rules(vec![rule(Some(kb()))], kb()).unwrap().len(), 1);
    assert_eq!(
        cross(rules(vec![rule(None), rule(Some(elsewhere()))], kb()).unwrap_err()),
        "rule.predicate: 1 row(s); rule.predicate: 1 row(s)"
    );
}

#[test]
fn entities_versions_passages_and_evidence_stay_inside() {
    let entity = |type_id, type_kb| ExportEntity {
        id: id(10),
        canonical_name: "Acme".into(),
        type_id,
        type_kb,
        type_source: "human".into(),
        type_resolved_at: None,
        proposed_type: None,
        specific_type: None,
        description: None,
        created_at: at("2026-01-01T00:00:00Z"),
    };
    assert!(entities_page(vec![entity(None, None)], kb()).is_ok());
    assert!(entities_page(vec![entity(Some(id(1)), Some(kb()))], kb()).is_ok());
    assert_eq!(
        cross(entities_page(vec![entity(Some(id(1)), None)], kb()).unwrap_err()),
        "entity.type: 1 row(s)"
    );

    let version = |document_kb| ExportDocumentVersion {
        id: id(16),
        document_id: id(12),
        version: 2,
        sha256: "deadbeef".into(),
        size_bytes: 4096,
        ingested_at: at("2026-03-01T00:00:00Z"),
        document_kb,
    };
    assert!(document_versions_page(vec![version(Some(kb()))], kb()).is_ok());
    assert_eq!(
        cross(document_versions_page(vec![version(Some(elsewhere()))], kb()).unwrap_err()),
        "docversion.document: 1 row(s)"
    );

    let mut c = chunk(13);
    c.superseded_at = Some(at("2026-04-01T00:00:00Z"));
    assert_eq!(chunks_page(vec![c.clone()], kb()).unwrap().len(), 1);
    c.document_kb = None;
    assert_eq!(
        cross(chunks_page(vec![chunk(13), c], kb()).unwrap_err()),
        "chunk.document: 1 row(s)"
    );

    let evidence = |chunk_kb, document_id, document_kb| ExportEvidence {
        fact_id: id(5),
        chunk_id: id(13),
        document_id,
        doc_version: None,
        version_row: false,
        quote: None,
        quote_start: None,
        quote_end: None,
        proposed_predicate: None,
        chunk_kb,
        document_kb,
    };
    assert!(evidence_page(vec![evidence(Some(kb()), None, None)], kb()).is_ok());
    assert_eq!(
        cross(evidence_page(vec![evidence(None, Some(id(12)), None)], kb()).unwrap_err()),
        "evidence.chunk: 1 row(s); evidence.document: 1 row(s)"
    );
}

#[test]
fn a_fact_is_refused_for_each_reference_that_leaves() {
    let mut gone = fact(5);
    gone.invalidated_at = Some(at("2026-03-01T00:00:00Z"));
    assert_eq!(facts_alone(vec![fact(4), gone]).unwrap().len(), 2);

    let mut f = fact(5);
    f.subject_kb = None;
    f.object_kb = Some(elsewhere());
    f.predicate_kb = None;
    f.supersedes = Some(id(6));
    f.foreign_source = true;
    f.foreign_document = true;
    f.subject_merged = true;
    assert_eq!(
        cross(facts_alone(vec![f]).unwrap_err()),
        "fact.subject: 1 row(s); fact.object: 1 row(s); fact.predicate: 1 row(s); \
         fact.supersedes: 1 row(s); fact.source: 1 row(s); evidence.document: 1 row(s)"
    );

    let mut f = fact(5);
    f.object_id = None;
    f.object_kb = None;
    f.predicate_id = None;
    f.predicate_kb = None;
    f.object_merged = true;
    assert!(facts_alone(vec![f.clone()]).is_ok());
    f.object_id = Some(id(11));
    f.object_kb = Some(kb());
    f.subject_merged = true;
    assert_eq!(
        unexported(facts_alone(vec![f]).unwrap_err()),
        "fact.subject(merged): 1 row(s); fact.object(merged): 1 row(s)"
    );
}

#[test]
fn facts_get_what_belongs_to_them_in_order() {
    let out = facts_page(
        vec![fact(5), fact(6), fact(7)],
        vec![qualifier(5, "a"), qualifier(5, "b"), qualifier(7, "c"), qualifier(99, "lost")],
        vec![property(6, "since"), property(6, "witness")],
        vec![mention(7, 3), mention(7, 12)],
        kb(),
    )
    .unwrap();
    let keys = |f: &ExportFact| f.qualifiers.iter().map(|q| q.key.clone()).collect::<Vec<_>>();
    assert_eq!(keys(&out[0]), vec!["a", "b"]);
    assert_eq!(keys(&out[1]), Vec::<String>::new());
    assert_eq!(keys(&out[2]), vec!["c"]);
    assert_eq!(out[0].qualifiers[0].label, "");
    let roles: Vec<_> = out[1].statement_qualifiers.iter().map(|q| q.role.clone()).collect();
    assert_eq!(roles, vec!["since", "witness"]);
    assert!(out[0].statement_qualifiers.is_empty());
    let starts: Vec<_> = out[2].time_mentions.iter().map(|m| m.char_start).collect();
    assert_eq!(starts, vec![3, 12]);
}

#[test]
fn what_belongs_to_facts_stays_inside_too() {
    let mut q = qualifier(5, "a");
    q.type_kb = Some(elsewhere());
    q.entity_id = Some(id(11));
    assert_eq!(
        cross(facts_page(vec![fact(5)], vec![q], vec![], vec![], kb()).unwrap_err()),
        "qualifier.type: 1 row(s); qualifier.entity: 1 row(s)"
    );
    let mut q = qualifier(5, "a");
    q.entity_id = Some(id(11));
    q.entity_kb = Some(kb());
    q.entity_merged = true;
    assert_eq!(
        unexported(facts_page(vec![fact(5)], vec![q], vec![], vec![], kb()).unwrap_err()),
        "qualifier.entity(merged): 1 row(s)"
    );
    let mut p = property(5, "since");
    p.entity_kb = None;
    assert_eq!(
        cross(facts_page(vec![fact(5)], vec![], vec![p], vec![], kb()).unwrap_err()),
        "squalifier.entity: 1 row(s)"
    );
    let mut p = property(5, "since");
    p.entity_merged = true;
    assert_eq!(
        unexported(facts_page(vec![fact(5)], vec![], vec![p], vec![], kb()).unwrap_err()),
        "squalifier.entity(merged): 1 row(s)"
    );
    let mut m = mention(5, 0);
    m.kb_id = elsewhere();
    m.chunk_kb = None;
    assert_eq!(
        cross(facts_page(vec![fact(5)], vec![], vec![], vec![m], kb()).unwrap_err()),
        "timemention.fact: 1 row(s); timemention.chunk: 1 row(s)"
    );
}

#[test]
fn each_table_can_be_judged_by_itself() {
    assert!(check_facts(&vec![fact(5)], kb()).is_ok());
    let mut f = fact(5);
    f.subject_kb = None;
    assert_eq!(cross(check_facts(&vec![f], kb()).unwrap_err()), "fact.subject: 1 row(s)");
    assert!(check_qualifiers(&vec![qualifier(5, "a")], kb()).is_ok());
    let mut q = qualifier(5, "a");
    q.type_kb = None;
    assert_eq!(cross(check_qualifiers(&vec![q], kb()).unwrap_err()), "qualifier.type: 1 row(s)");
    assert!(check_properties(&vec![property(5, "since")], kb()).is_ok());
    let mut p = property(5, "since");
    p.entity_merged = true;
    assert_eq!(
        unexported(check_properties(&vec![p], kb()).unwrap_err()),
        "squalifier.entity(merged): 1 row(s)"
    );
    assert!(check_mentions(&vec![mention(5, 0)], kb()).is_ok());
    let mut m = mention(5, 0);
    m.chunk_kb = None;
    assert_eq!(cross(check_mentions(&vec![m], kb()).unwrap_err()), "timemention.chunk: 1 row(s)");
    assert!(check_derived(&vec![derived(7)], kb()).is_ok());
    let mut d = derived(7);
    d.subject_merged = true;
    assert_eq!(
        unexported(check_derived(&vec![d], kb()).unwrap_err()),
        "derived.subject(merged): 1 row(s)"
    );
}

#[test]
fn the_facts_themselves_are_judged_first() {
    let mut f = fact(5);
    f.subject_kb = None;
    let mut q = qualifier(5, "a");
    q.type_kb = None;
    assert_eq!(
        cross(facts_page(vec![f], vec![q], vec![], vec![], kb()).unwrap_err()),
        "fact.subject: 1 row(s)"
    );
}

#[test]
fn derived_facts_get_their_premises_in_order() {
    let mut d = derived(7);
    d.premises = vec![];
    let mut e = derived(8);
    e.premises = vec![];
    let out = derived_page(
        vec![d, e],
        vec![premise(7, 0), premise(7, 1), premise(8, 4), premise(9, 0)],
        kb(),
    )
    .unwrap();
    let seqs = |d: &ExportDerived| d.premises.iter().map(|p| p.seq).collect::<Vec<_>>();
    assert_eq!(seqs(&out[0]), vec![0, 1]);
    assert_eq!(seqs(&out[1]), vec![4]);
    assert_eq!(out[0].premises[0].fact_id, Some(id(5)));
    assert_eq!(out[0].premises[0].derived_id, None);
}

#[test]
fn a_derived_fact_is_refused_for_each_reference_that_leaves() {
    let mut d = derived(7);
    d.subject_kb = None;
    d.object_kb = None;
    d.predicate_kb = None;
    d.rule_kb = None;
    d.attribute_rule_id = Some(id(9));
    d.foreign_fact_premise = true;
    d.foreign_derived_premise = true;
    d.object_merged = true;
    assert_eq!(
        cross(derived_page(vec![d], vec![], kb()).unwrap_err()),
        "derived.subject: 1 row(s); derived.object: 1 row(s); derived.predicate: 1 row(s); \
         derived.rule: 1 row(s); derived.attribute_rule: 1 row(s); \
         derivation.premise_fact: 1 row(s); derivation.premise_derived: 1 row(s)"
    );
    let mut d = derived(7);
    d.subject_merged = true;
    d.object_merged = true;
    assert_eq!(
        unexported(derived_page(vec![d], vec![], kb()).unwrap_err()),
        "derived.subject(merged): 1 row(s); derived.object(merged): 1 row(s)"
    );
}

#[test]
fn formulas_are_searched_for_what_they_read() {
    let read = |s: &str| {
        let mut out = vec![];
        expr_predicate_ids(&j(s), &mut out);
        out
    };
    let a = "04040404-0404-0404-0404-040404040404";
    assert_eq!(read(&format!(r#"{{"attr": "{a}"}}"#)), vec![Some(id(4))]);
    assert_eq!(read(r#"{"attr": "nonsense"}"#), vec![None]);
    assert_eq!(read(r#"{"attr": 7}"#), vec![None]);
    assert_eq!(read(r#"{"const": 2}"#), vec![]);
    assert_eq!(read("2"), vec![]);
    assert_eq!(read(r#"[{"attr": "x"}]"#), vec![]);
    assert_eq!(read(r#"{"l": {"attr": "x"}}"#), vec![]);
    assert_eq!(
        read(&format!(
            r#"{{"op": "mul", "l": {{"op": "add", "l": {{"attr": "x"}}, "r": {{"const": 1}}}},
                "r": {{"attr": "{a}"}}}}"#
        )),
        vec![None, Some(id(4))]
    );
    assert_eq!(read(&format!(r#"{{"attr": "{a}", "op": "mul", "l": {{"attr": "x"}}}}"#)), vec![Some(id(4))]);
    assert_eq!(read(r#"{"const": 1, "op": "mul", "l": {"attr": "x"}}"#), vec![]);
}

#[test]
fn business_rules_get_their_conditions_and_stay_inside() {
    let attr = j(r#"{"attr": "04040404-0404-0404-0404-040404040404"}"#);
    let rules_in = vec![arule(9, Some(attr.clone())), arule(14, None)];
    let conditions = vec![
        condition(9, 0, Some(j("100"))),
        condition(9, 1, Some(attr.clone())),
        condition(77, 0, None),
    ];
    assert_eq!(embedded_predicates(&rules_in, &conditions), vec![Some(id(4)), Some(id(4))]);
    let kbs = vec![(id(4), Some(kb()))];
    let out = attribute_rules(rules_in.clone(), conditions.clone(), &kbs, kb()).unwrap();
    let seqs = |r: &ExportAttributeRule| r.conditions.iter().map(|c| c.seq).collect::<Vec<_>>();
    assert_eq!(seqs(&out[0]), vec![0, 1]);
    assert_eq!(seqs(&out[1]), Vec::<i32>::new());

    for kbs in [vec![], vec![(id(4), None)], vec![(id(4), Some(elsewhere()))]] {
        assert_eq!(
            cross(attribute_rules(rules_in.clone(), conditions.clone(), &kbs, kb()).unwrap_err()),
            "rule.expr_predicate: 2 row(s)"
        );
    }
    let malformed = vec![arule(9, Some(j(r#"{"attr": "not-a-uuid"}"#)))];
    assert_eq!(
        cross(attribute_rules(malformed, vec![], &vec![], kb()).unwrap_err()),
        "rule.expr_predicate: 1 row(s)"
    );

    let mut bad = arule(9, None);
    bad.subject_type_kb = None;
    bad.conclude_type_id = Some(id(3));
    bad.conclude_predicate_kb = Some(elsewhere());
    let mut c = condition(9, 0, None);
    c.predicate_kb = Some(elsewhere());
    assert_eq!(
        cross(attribute_rules(vec![bad], vec![c], &vec![], kb()).unwrap_err()),
        "arule.subject_type: 1 row(s); arule.conclude_type: 1 row(s); \
         arule.conclude_predicate: 1 row(s); condition.predicate: 1 row(s)"
    );
}
