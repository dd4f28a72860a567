//! What an export says, read back with a parser.
use ledger_rdf::emit_derived::emit_derived;
use ledger_rdf::emit_fact::emit_fact;
use ledger_rdf::emit_ontology::{emit_class, emit_relation, emit_rule};
use ledger_rdf::emit_rules::emit_attribute_rule;
use ledger_rdf::emit_sources::{emit_chunk, emit_document, emit_docversion, emit_evidence};
use ledger_rdf::json::Json;
use ledger_rdf::literals::{dt, literal_value, world_time};
use ledger_rdf::names::Names;
use ledger_rdf::rows::{
    ExportAttributeRule, ExportChunk, ExportClass, ExportDerived, ExportDocument,
    ExportDocumentVersion, ExportEvidence, ExportFact, ExportPremise, ExportRelation, ExportRule,
    ExportRuleCondition, ExportStatementQualifier, ExportTimeMention, FactQualifier,
};
use ledger_rdf::sink::{Format, SharedBuf, Sink};
use ledger_rdf::time::DateTime;
use ledger_rdf::uuid::Uuid;
use ledger_rdf::vocabulary::{vocabulary, Vocabulary};
use oxrdf::vocab::{rdf, rdfs, xsd};
use oxrdf::{Literal, NamedNode, Quad, Term};

fn kb() -> Uuid {
    Uuid::parse_str("01a06dc4-f40a-7013-b09f-1b499e2e7441").unwrap()
}

fn id(n: u8) -> Uuid {
    Uuid::from_u128(u128::from_be_bytes([n; 16]))
}

fn at(s: &str) -> DateTime {
    let t: chrono::DateTime<chrono::Utc> = s.parse().unwrap();
    DateTime::from_timestamp(t.timestamp(), t.timestamp_subsec_nanos()).unwrap()
}

fn conf(c: f32) -> String {
    format!("{c:.2}")
}

fn json_of(v: serde_json::Value) -> Json {
    match v {
        serde_json::Value::Null => Json::Null,
        serde_json::Value::Bool(b) => Json::Bool(b),
        serde_json::Value::Number(n) => Json::Number(n),
        serde_json::Value::String(s) => Json::Text(s),
        serde_json::Value::Array(a) => Json::Array(a.into_iter().map(json_of).collect()),
        serde_json::Value::Object(o) => {
            Json::Object(o.into_iter().map(|(k, v)| (k, json_of(v))).collect())
        }
    }
}

fn j(s: &str) -> Json {
    json_of(serde_json::from_str(s).unwrap())
}

fn class(n: u8, key: &str, iri: Option<&str>) -> ExportClass {
    ExportClass {
        id: id(n),
        key: key.into(),
        label: key.into(),
        description: String::new(),
        iri: iri.map(str::to_string),
        builtin: false,
        parents: vec![],
        primary_parents: vec![],
        disjoint: vec![],
        updated_at: at("2026-01-01T00:00:00Z"),
    }
}

fn relation(n: u8, key: &str, iri: Option<&str>, kind: &str) -> ExportRelation {
    ExportRelation {
        id: id(n),
        key: key.into(),
        label: key.into(),
        description: String::new(),
        iri: iri.map(str::to_string),
        kind: kind.into(),
        datatype: (kind == "attribute").then_some("number".to_string()),
        unit: None,
        temporal: "state".into(),
        functional: true,
        inverse_functional: false,
        is_transitive: false,
        is_symmetric: false,
        is_asymmetric: false,
        is_irreflexive: false,
        builtin: false,
        inverse_of: None,
        sub_property_of: None,
        qualifiers: vec![],
        domains: vec![],
        ranges: vec![],
        updated_at: at("2026-01-01T00:00:00Z"),
    }
}

fn fact(n: u8) -> ExportFact {
    ExportFact {
        qualifiers: Vec::new(),
        id: id(n),
        subject_id: id(10),
        predicate_id: Some(id(2)),
        surface_predicate: None,
        object_id: Some(id(11)),
        object_value: None,
        layer: "typed".into(),
        phrase: None,
        source_statements: vec![],
        foreign_source: false,
        statement_qualifiers: vec![],
        time_mentions: vec![],
        valid_from_grade: None,
        valid_from: None,
        valid_from_precision: None,
        valid_to: None,
        valid_to_precision: None,
        holds_from: Some(at("2026-01-01T00:00:00Z")),
        holds_to: None,
        attested_from: at("2026-01-01T00:00:00Z"),
        attested_to: None,
        end_derived: false,
        rule_derived: false,
        recorded_at: at("2026-01-01T00:00:00Z"),
        invalidated_at: None,
        confidence: conf(0.9),
        supersedes: None,
        documents: vec![],
        quotes: vec![],
        quote_origins: vec![],
        subject_kb: Some(kb()),
        object_kb: Some(kb()),
        predicate_kb: Some(kb()),
        supersedes_kb: None,
        foreign_document: false,
        subject_merged: false,
        object_merged: false,
    }
}

fn derived(n: u8) -> ExportDerived {
    ExportDerived {
        id: id(n),
        subject_id: id(10),
        predicate_id: id(2),
        object_id: Some(id(11)),
        object_value: None,
        rule_id: Some(id(8)),
        attribute_rule_id: None,
        valid_from: None,
        valid_from_precision: None,
        valid_to: None,
        valid_to_precision: None,
        derived_at: at("2026-02-01T00:00:00Z"),
        invalidated_at: None,
        confidence: conf(0.8),
        premises: vec![ExportPremise { seq: 1, fact_id: Some(id(5)), derived_id: None }],
        subject_kb: Some(kb()),
        object_kb: Some(kb()),
        predicate_kb: Some(kb()),
        rule_kb: Some(kb()),
        attribute_rule_kb: None,
        foreign_fact_premise: false,
        foreign_derived_premise: false,
        subject_merged: false,
        object_merged: false,
    }
}

fn chunk(n: u8) -> ExportChunk {
    ExportChunk {
        id: id(n),
        document_id: id(12),
        seq: 3,
        heading: Some("Q3 review".into()),
        char_start: 120,
        char_end: 204,
        doc_version: 2,
        version_row: false,
        superseded_at: None,
        extracted_at: None,
        origin: "stated".into(),
        origin_model: None,
        anchor: None,
        created_at: at("2026-01-01T00:00:00Z"),
        document_kb: Some(kb()),
    }
}

fn parsed(format: Format, bytes: &[u8]) -> Vec<Quad> {
    oxrdfio::RdfParser::from_format(match format {
        Format::Turtle => oxrdfio::RdfFormat::Turtle,
        Format::JsonLd => {
            oxrdfio::RdfFormat::JsonLd { profile: oxrdfio::JsonLdProfileSet::empty() }
        }
    })
    .for_slice(bytes)
    .map(|q| q.expect("an exported file must parse"))
    .collect()
}

fn export(format: Format, emit: impl FnOnce(&mut Sink, &Names, &Vocabulary)) -> Vec<Quad> {
    let names = Names::new(kb(), None).unwrap();
    let classes =
        vec![class(1, "person", Some("https://schema.org/Person")), class(3, "team", None)];
    let relations = vec![
        relation(2, "works_for", Some("https://schema.org/worksFor"), "relation"),
        relation(4, "headcount", None, "attribute"),
    ];
    let vocab = vocabulary(&names, &classes, &relations);
    let mut sink = Sink::new(format, SharedBuf::default());
    for c in &classes {
        emit_class(&mut sink, &vocab, c).unwrap();
    }
    for r in &relations {
        emit_relation(&mut sink, &vocab, r).unwrap();
    }
    emit(&mut sink, &names, &vocab);
    parsed(format, &sink.finish().take())
}

fn has(quads: &[Quad], s: &str, p: &str, o: &str) -> bool {
    quads.iter().any(|q| {
        q.subject.to_string() == s && q.predicate.to_string() == format!("<{p}>") && {
            let obj = q.object.to_string();
            obj == o || obj == format!("<{o}>")
        }
    })
}

fn objects(quads: &[Quad], s: &str, p: &str) -> Vec<String> {
    quads
        .iter()
        .filter(|q| q.subject.to_string() == s && q.predicate.to_string() == format!("<{p}>"))
        .map(|q| q.object.to_string())
        .collect()
}

fn nn(iri: &str) -> NamedNode {
    NamedNode::new(iri).unwrap()
}

fn node(n: &ledger_rdf::term::NamedNode) -> NamedNode {
    nn(n.as_str())
}

fn lit(l: &ledger_rdf::term::Literal) -> Literal {
    Literal::new_typed_literal(l.value(), nn(l.datatype()))
}

const STMT: &str = "<urn:utopia:kb:01a06dc4-f40a-7013-b09f-1b499e2e7441:fact:05050505-0505-0505-0505-050505050505>";
const SUBJ: &str = "<urn:utopia:kb:01a06dc4-f40a-7013-b09f-1b499e2e7441:entity:0a0a0a0a-0a0a-0a0a-0a0a-0a0a0a0a0a0a>";
const OBJ: &str = "<urn:utopia:kb:01a06dc4-f40a-7013-b09f-1b499e2e7441:entity:0b0b0b0b-0b0b-0b0b-0b0b-0b0b0b0b0b0b>";
const WORKS_FOR: &str = "https://schema.org/worksFor";

#[test]
fn unbound_literal_objects_survive_both_formats() {
    for value in [
        j(r#"{"value": "待复检"}"#),
        j(r#"{"value": "quote: \" and slash: \\"}"#),
        j(r#"{"value": ""}"#),
        j(r#"{"value": 0}"#),
        j(r#"{"value": false}"#),
        j(r#"{"value": null, "summary": "not specified"}"#),
        Json::Null,
    ] {
        let mut f = fact(5);
        f.predicate_id = None;
        f.surface_predicate = Some("状态".into());
        f.object_id = None;
        f.object_value = Some(value.clone());
        f.documents = vec![id(20)];
        f.quotes = vec!["设备 A 待复检".into()];
        f.supersedes = Some(id(6));
        f.supersedes_kb = Some(kb());
        for retracted in [false, true] {
            f.invalidated_at = if retracted {
                Some(at("2026-02-01T00:00:00Z"))
            } else {
                None
            };
            let mut sets = Vec::new();
            for format in [Format::Turtle, Format::JsonLd] {
                let quads = export(format, |sink, names, vocab| {
                    emit_fact(sink, names, vocab, &f, at("2026-06-01T00:00:00Z")).unwrap();
                });
                assert_eq!(
                    objects(&quads, STMT, rdf::OBJECT.as_str()),
                    vec![lit(&literal_value(&value, None)).to_string()],
                    "unbound statement lost its literal object: {value:?}"
                );
                assert!(objects(&quads, STMT, rdf::PREDICATE.as_str()).is_empty());
                assert!(!quads.iter().any(|q| q.subject.to_string() == SUBJ));
                sets.push(quads.into_iter().collect::<std::collections::HashSet<_>>());
            }
            assert_eq!(sets[0], sets[1]);
        }
    }
}

#[test]
fn bound_literal_datatypes_survive_both_formats() {
    for (datatype, value, expected) in [
        (
            "number",
            "0",
            Literal::new_typed_literal("0", xsd::DECIMAL),
        ),
        (
            "text",
            "\"待复检\"",
            Literal::new_simple_literal("待复检"),
        ),
        (
            "bool",
            "false",
            Literal::new_typed_literal("false", xsd::BOOLEAN),
        ),
    ] {
        let mut f = fact(5);
        f.predicate_id = Some(id(4));
        f.object_id = None;
        f.object_value = Some(j(&format!("{{\"value\": {value}}}")));
        for format in [Format::Turtle, Format::JsonLd] {
            let quads = export(format, |sink, names, _| {
                let mut property = relation(4, "value", None, "attribute");
                property.datatype = Some(datatype.into());
                let vocab = vocabulary(names, &[], &[property]);
                emit_fact(sink, names, &vocab, &f, at("2026-06-01T00:00:00Z")).unwrap();
            });
            assert_eq!(
                objects(&quads, STMT, rdf::OBJECT.as_str()),
                vec![expected.to_string()]
            );
            assert!(quads.iter().any(|q| q.subject.to_string() == SUBJ
                && q.object == Term::Literal(expected.clone())));
        }
    }
}

#[test]
fn an_absent_object_is_not_an_empty_literal() {
    let mut f = fact(5);
    f.predicate_id = None;
    f.object_id = None;
    f.object_value = None;
    for format in [Format::Turtle, Format::JsonLd] {
        let quads = export(format, |sink, names, vocab| {
            emit_fact(sink, names, vocab, &f, at("2026-06-01T00:00:00Z")).unwrap();
        });
        assert!(objects(&quads, STMT, rdf::OBJECT.as_str()).is_empty());
    }
}

#[test]
fn an_imported_class_keeps_its_own_iri() {
    let quads = export(Format::Turtle, |_, _, _| {});
    assert!(has(
        &quads,
        "<https://schema.org/Person>",
        "http://www.w3.org/1999/02/22-rdf-syntax-ns#type",
        "http://www.w3.org/2002/07/owl#Class"
    ));
    assert!(has(
        &quads,
        "<urn:utopia:kb:01a06dc4-f40a-7013-b09f-1b499e2e7441:class:team>",
        "http://www.w3.org/1999/02/22-rdf-syntax-ns#type",
        "http://www.w3.org/2002/07/owl#Class"
    ));
    assert!(has(
        &quads,
        &format!("<{WORKS_FOR}>"),
        "http://www.w3.org/1999/02/22-rdf-syntax-ns#type",
        "http://www.w3.org/2002/07/owl#FunctionalProperty"
    ));
}

#[test]
fn a_live_fact_is_both_a_statement_and_a_triple() {
    let quads = export(Format::Turtle, |sink, names, vocab| {
        emit_fact(sink, names, vocab, &fact(5), at("2026-06-01T00:00:00Z")).unwrap();
    });
    assert!(has(
        &quads,
        STMT,
        "http://www.w3.org/1999/02/22-rdf-syntax-ns#type",
        "http://www.w3.org/1999/02/22-rdf-syntax-ns#Statement"
    ));
    assert!(has(
        &quads,
        STMT,
        "http://www.w3.org/1999/02/22-rdf-syntax-ns#subject",
        SUBJ
    ));
    assert!(
        has(&quads, SUBJ, WORKS_FOR, OBJ),
        "a fact that still holds has a plain edge"
    );
    assert_eq!(
        objects(&quads, STMT, "urn:utopia:ns:confidence"),
        vec!["\"0.90\"^^<http://www.w3.org/2001/XMLSchema#decimal>"]
    );
}

#[test]
fn a_closed_or_retracted_fact_is_a_statement_only() {
    let mut closed = fact(5);
    closed.valid_from = Some(at("2023-01-01T00:00:00Z"));
    closed.valid_from_precision = Some("day".into());
    closed.valid_to = Some(at("2024-07-01T00:00:00Z"));
    closed.valid_to_precision = Some("day".into());
    closed.holds_from = Some(at("2023-01-01T00:00:00Z"));
    closed.holds_to = Some(at("2024-07-01T00:00:00Z"));
    let quads = export(Format::Turtle, |sink, names, vocab| {
        emit_fact(sink, names, vocab, &closed, at("2026-06-01T00:00:00Z")).unwrap();
    });
    assert!(
        !has(&quads, SUBJ, WORKS_FOR, OBJ),
        "a relation that has ended is not written in the present"
    );
    assert_eq!(
        objects(&quads, STMT, "https://schema.org/validThrough"),
        vec!["\"2024-07-01\"^^<http://www.w3.org/2001/XMLSchema#date>"]
    );

    let mut retracted = fact(5);
    retracted.invalidated_at = Some(at("2026-03-01T00:00:00Z"));
    let quads = export(Format::Turtle, |sink, names, vocab| {
        emit_fact(sink, names, vocab, &retracted, at("2026-06-01T00:00:00Z")).unwrap();
    });
    assert!(!has(&quads, SUBJ, WORKS_FOR, OBJ), "a retracted fact has no plain edge");
    assert_eq!(
        objects(&quads, STMT, "http://www.w3.org/ns/prov#invalidatedAtTime"),
        vec!["\"2026-03-01T00:00:00Z\"^^<http://www.w3.org/2001/XMLSchema#dateTime>"]
    );
}

#[test]
fn record_axis_subseconds_round_trip_without_changing_world_precision() {
    for timestamp in [
        "2026-09-20T00:00:00Z",
        "2026-09-20T00:00:00.100Z",
        "2026-09-20T00:00:00.100001Z",
        "2026-09-20T00:00:00.100002Z",
        "2026-09-20T00:00:00.123456789Z",
    ] {
        let literal = dt(at(timestamp));
        assert_eq!(literal.datatype(), xsd::DATE_TIME.as_str());
        assert_eq!(
            literal.value().parse::<chrono::DateTime<chrono::Utc>>().unwrap(),
            timestamp.parse::<chrono::DateTime<chrono::Utc>>().unwrap()
        );
    }
    assert_eq!(
        dt(at("2026-09-20T00:00:00Z")).value(),
        "2026-09-20T00:00:00Z"
    );
    let instant = at("2026-09-20T12:34:56.123456Z");
    for (precision, lexical, datatype) in [
        ("year", "2026", xsd::G_YEAR),
        ("month", "2026-09", xsd::G_YEAR_MONTH),
        ("day", "2026-09-20", xsd::DATE),
        ("hour", "2026-09-20T12:34:56Z", xsd::DATE_TIME),
        ("minute", "2026-09-20T12:34:56Z", xsd::DATE_TIME),
        ("second", "2026-09-20T12:34:56Z", xsd::DATE_TIME),
    ] {
        assert_eq!(
            lit(&world_time(instant, Some(precision))),
            Literal::new_typed_literal(lexical, datatype)
        );
    }
}

#[test]
fn a_year_stays_a_year() {
    let mut coarse = fact(5);
    coarse.valid_from = Some(at("2023-01-01T00:00:00Z"));
    coarse.valid_from_precision = Some("year".into());
    let quads = export(Format::Turtle, |sink, names, vocab| {
        emit_fact(sink, names, vocab, &coarse, at("2026-06-01T00:00:00Z")).unwrap();
    });
    assert_eq!(
        objects(&quads, STMT, "https://schema.org/validFrom"),
        vec!["\"2023\"^^<http://www.w3.org/2001/XMLSchema#gYear>"]
    );
}

#[test]
fn an_ended_but_undated_relation_says_so() {
    let mut ended = fact(5);
    ended.valid_to = None;
    ended.valid_to_precision = Some("unknown".into());
    ended.holds_to = ended.holds_from;
    let quads = export(Format::Turtle, |sink, names, vocab| {
        emit_fact(sink, names, vocab, &ended, at("2026-06-01T00:00:00Z")).unwrap();
    });
    assert!(has(
        &quads,
        STMT,
        "urn:utopia:ns:endedUnknown",
        "\"true\"^^<http://www.w3.org/2001/XMLSchema#boolean>"
    ));
    assert!(!has(&quads, SUBJ, WORKS_FOR, OBJ));
}

#[test]
fn a_predicate_the_ontology_never_accepted_is_not_invented() {
    let mut bare = fact(5);
    bare.predicate_id = None;
    bare.surface_predicate = Some("acquired".into());
    let quads = export(Format::Turtle, |sink, names, vocab| {
        emit_fact(sink, names, vocab, &bare, at("2026-06-01T00:00:00Z")).unwrap();
    });
    assert!(
        objects(
            &quads,
            STMT,
            "http://www.w3.org/1999/02/22-rdf-syntax-ns#predicate"
        )
        .is_empty(),
        "a relation that the ontology lacks is not made up"
    );
    assert_eq!(
        objects(&quads, STMT, "urn:utopia:ns:proposedPredicate"),
        vec!["\"acquired\""]
    );
}

#[test]
fn an_attribute_carries_its_datatype() {
    let mut attr = fact(5);
    attr.predicate_id = Some(id(4));
    attr.object_id = None;
    attr.object_value = Some(j(r#"{"value": 42, "unit": "people"}"#));
    let quads = export(Format::Turtle, |sink, names, vocab| {
        emit_fact(sink, names, vocab, &attr, at("2026-06-01T00:00:00Z")).unwrap();
    });
    assert_eq!(
        objects(
            &quads,
            STMT,
            "http://www.w3.org/1999/02/22-rdf-syntax-ns#object"
        ),
        vec!["\"42\"^^<http://www.w3.org/2001/XMLSchema#decimal>"]
    );
}

#[test]
fn a_relative_deadline_is_a_string_that_says_it_is_relative() {
    let dated = literal_value(&j(r#"{"value": "2020-06-23"}"#), Some("date"));
    assert_eq!(dated.datatype(), xsd::DATE.as_str());
    let relative = literal_value(
        &j(r#"{"value": "45 days after the Trigger Date", "relative": true}"#),
        Some("date"),
    );
    assert_eq!(relative.datatype(), xsd::STRING.as_str());
    assert_eq!(relative.value(), "45 days after the Trigger Date");

    let mut attr = fact(5);
    attr.predicate_id = Some(id(4));
    attr.object_id = None;
    attr.object_value = Some(
        j(r#"{"value": "45 days after the Trigger Date", "relative": true}"#),
    );
    let quads = export(Format::Turtle, |sink, names, vocab| {
        emit_fact(sink, names, vocab, &attr, at("2026-06-01T00:00:00Z")).unwrap();
    });
    assert!(has(
        &quads,
        STMT,
        "urn:utopia:ns:relativeValue",
        "\"true\"^^<http://www.w3.org/2001/XMLSchema#boolean>"
    ));
}

#[test]
fn a_rule_conclusion_reaches_the_export_as_a_literal() {
    let derived = ExportDerived {
        id: id(7),
        subject_id: id(10),
        predicate_id: id(2),
        object_id: None,
        object_value: Some(j(r#"{"class": "gas_well"}"#)),
        rule_id: None,
        attribute_rule_id: Some(id(9)),
        valid_from: None,
        valid_from_precision: None,
        valid_to: None,
        valid_to_precision: None,
        derived_at: at("2026-02-01T00:00:00Z"),
        invalidated_at: None,
        confidence: conf(0.9),
        premises: vec![ExportPremise {
            seq: 1,
            fact_id: Some(id(5)),
            derived_id: None,
        }],
        subject_kb: Some(kb()),
        object_kb: None,
        predicate_kb: Some(kb()),
        rule_kb: None,
        attribute_rule_kb: Some(kb()),
        foreign_fact_premise: false,
        foreign_derived_premise: false,
        subject_merged: false,
        object_merged: false,
    };
    let rule = ExportAttributeRule {
        id: id(9),
        name: "Gas-bearing well".into(),
        description: String::new(),
        conclusion: "attribute".into(),
        subject_type_id: id(1),
        conclude_type_id: None,
        conclude_predicate_id: Some(id(4)),
        conclude_value: Some(j(r#"{"value": 0.95}"#)),
        conclude_expr: None,
        enabled: true,
        conditions: vec![],
        subject_type_kb: Some(kb()),
        conclude_type_kb: None,
        conclude_predicate_kb: Some(kb()),
    };
    let quads = export(Format::Turtle, |sink, names, vocab| {
        emit_attribute_rule(sink, names, vocab, &rule).unwrap();
        emit_derived(sink, names, vocab, &derived).unwrap();
    });
    let stmt = "<urn:utopia:kb:01a06dc4-f40a-7013-b09f-1b499e2e7441:derived:07070707-0707-0707-0707-070707070707>";
    assert!(has(
        &quads,
        stmt,
        "urn:utopia:ns:derived",
        "\"true\"^^<http://www.w3.org/2001/XMLSchema#boolean>"
    ));
    let obj = objects(
        &quads,
        stmt,
        "http://www.w3.org/1999/02/22-rdf-syntax-ns#object",
    );
    assert_eq!(obj.len(), 1, "a conclusion has an object");
    assert!(
        obj[0].starts_with('"'),
        "the object of a literal conclusion is a literal, not {}",
        obj[0]
    );
    assert_eq!(
        objects(&quads, stmt, "http://www.w3.org/ns/prov#used").len(),
        1
    );
    let rule_iri =
        "<urn:utopia:kb:01a06dc4-f40a-7013-b09f-1b499e2e7441:arule:09090909-0909-0909-0909-090909090909>";
    assert_eq!(
        objects(
            &quads,
            rule_iri,
            "http://www.w3.org/2000/01/rdf-schema#label"
        ),
        vec!["\"Gas-bearing well\""],
        "the activity is shown under the name of the rule"
    );
    assert!(has(
        &quads,
        rule_iri,
        "urn:utopia:ns:concludesValue",
        "\"0.95\"^^<http://www.w3.org/2001/XMLSchema#decimal>"
    ));
}

#[test]
fn a_business_rule_exports_its_conditions_and_expr_predicates() {
    let headcount = id(4);
    let rule = ExportAttributeRule {
        id: id(9),
        name: "Gas-bearing well".into(),
        description: String::new(),
        conclusion: "computed".into(),
        subject_type_id: id(1),
        conclude_type_id: None,
        conclude_predicate_id: Some(headcount),
        conclude_value: None,
        conclude_expr: Some(j(&format!(
            r#"{{"op": "mul", "l": {{"attr": "{}"}}, "r": {{"const": 2}}}}"#,
            headcount.to_string()
        ))),
        enabled: true,
        conditions: vec![ExportRuleCondition {
            id: id(15),
            rule_id: id(9),
            group_seq: 0,
            seq: 1,
            predicate_id: headcount,
            op: "gt".into(),
            operand: Some(j(&format!(r#"{{"attr": "{}"}}"#, headcount.to_string()))),
            predicate_kb: Some(kb()),
        }],
        subject_type_kb: Some(kb()),
        conclude_type_kb: None,
        conclude_predicate_kb: Some(kb()),
    };
    for format in [Format::Turtle, Format::JsonLd] {
        let quads = export(format, |sink, names, vocab| {
            emit_attribute_rule(sink, names, vocab, &rule).unwrap();
        });
        let arule = "<urn:utopia:kb:01a06dc4-f40a-7013-b09f-1b499e2e7441:arule:09090909-0909-0909-0909-090909090909>";
        let cond = "<urn:utopia:kb:01a06dc4-f40a-7013-b09f-1b499e2e7441:condition:09090909-0909-0909-0909-090909090909:0:1>";
        assert!(has(
            &quads,
            arule,
            "urn:utopia:ns:condition",
            "urn:utopia:kb:01a06dc4-f40a-7013-b09f-1b499e2e7441:condition:09090909-0909-0909-0909-090909090909:0:1"
        ));
        assert!(has(
            &quads,
            cond,
            "http://www.w3.org/1999/02/22-rdf-syntax-ns#type",
            "urn:utopia:ns:RuleCondition"
        ));
        assert!(has(
            &quads,
            cond,
            "urn:utopia:ns:seq",
            "\"1\"^^<http://www.w3.org/2001/XMLSchema#integer>"
        ));
        assert!(has(&quads, cond, "urn:utopia:ns:op", "\"gt\""));
        assert!(has(
            &quads,
            cond,
            "urn:utopia:ns:onPredicate",
            "urn:utopia:kb:01a06dc4-f40a-7013-b09f-1b499e2e7441:relation:headcount"
        ));
        assert!(has(
            &quads,
            cond,
            "urn:utopia:ns:readsPredicate",
            "urn:utopia:kb:01a06dc4-f40a-7013-b09f-1b499e2e7441:relation:headcount"
        ));
        assert!(has(
            &quads,
            arule,
            "urn:utopia:ns:readsPredicate",
            "urn:utopia:kb:01a06dc4-f40a-7013-b09f-1b499e2e7441:relation:headcount"
        ));
        assert_eq!(
            objects(&quads, arule, "urn:utopia:ns:concludeExpr").len(),
            1
        );
    }
}

#[test]
fn a_document_version_binds_the_doc_version_locator() {
    let v = ExportDocumentVersion {
        id: id(16),
        document_id: id(12),
        version: 2,
        sha256: "deadbeef".into(),
        size_bytes: 4096,
        ingested_at: at("2026-03-01T00:00:00Z"),
        document_kb: Some(kb()),
    };
    for format in [Format::Turtle, Format::JsonLd] {
        let quads = export(format, |sink, names, _| {
            emit_docversion(sink, names, &v).unwrap();
            let mut c = chunk(13);
            c.version_row = true;
            emit_chunk(sink, names, &c).unwrap();
        });
        let vn = "<urn:utopia:kb:01a06dc4-f40a-7013-b09f-1b499e2e7441:docversion:0c0c0c0c-0c0c-0c0c-0c0c-0c0c0c0c0c0c:2>";
        assert!(has(
            &quads,
            vn,
            "http://www.w3.org/1999/02/22-rdf-syntax-ns#type",
            "urn:utopia:ns:DocumentVersion"
        ));
        assert!(has(
            &quads,
            vn,
            "http://www.w3.org/ns/prov#wasRevisionOf",
            "urn:utopia:kb:01a06dc4-f40a-7013-b09f-1b499e2e7441:document:0c0c0c0c-0c0c-0c0c-0c0c-0c0c0c0c0c0c"
        ));
        assert!(has(&quads, vn, "urn:utopia:ns:sha256", "\"deadbeef\""));
        let chunk_iri = "<urn:utopia:kb:01a06dc4-f40a-7013-b09f-1b499e2e7441:chunk:0d0d0d0d-0d0d-0d0d-0d0d-0d0d0d0d0d0d>";
        assert!(has(
            &quads,
            chunk_iri,
            "urn:utopia:ns:ofVersion",
            "urn:utopia:kb:01a06dc4-f40a-7013-b09f-1b499e2e7441:docversion:0c0c0c0c-0c0c-0c0c-0c0c-0c0c0c0c0c0c:2"
        ));
    }
}

#[test]
fn declared_property_links_are_local_explicit_and_order_independent() {
    let root = relation(21, "root", Some("https://example.test/root"), "relation");
    let mut inverse = relation(22, "inverse", None, "relation");
    inverse.inverse_of = Some(root.id);
    let mut child = relation(23, "child", None, "relation");
    child.sub_property_of = Some(root.id);
    let mut leaf = relation(24, "leaf", None, "relation");
    leaf.sub_property_of = Some(child.id);
    let mut relations = vec![root, inverse, child, leaf];
    let mut sets = Vec::new();
    for reverse in [false, true] {
        if reverse {
            relations.reverse();
        }
        for format in [Format::Turtle, Format::JsonLd] {
            let quads = export(format, |sink, names, _| {
                let vocab = vocabulary(names, &[], &relations);
                for r in &relations {
                    emit_relation(sink, &vocab, r).unwrap();
                }
            });
            let names = Names::new(kb(), None).unwrap();
            let iri = |n| node(&names.relation(relations.iter().find(|r| r.id == id(n)).unwrap()));
            let expected: std::collections::HashSet<_> = [
                (iri(22).into(), nn("http://www.w3.org/2002/07/owl#inverseOf"), Term::from(iri(21))),
                (
                    iri(23).into(),
                    nn(rdfs::SUB_PROPERTY_OF.as_str()),
                    Term::from(iri(21)),
                ),
                (
                    iri(24).into(),
                    nn(rdfs::SUB_PROPERTY_OF.as_str()),
                    Term::from(iri(23)),
                ),
            ]
            .into_iter()
            .collect();
            let links: std::collections::HashSet<_> = quads
                .iter()
                .filter(|q| {
                    q.predicate == nn("http://www.w3.org/2002/07/owl#inverseOf") || q.predicate == rdfs::SUB_PROPERTY_OF
                })
                .map(|q| (q.subject.clone(), q.predicate.clone(), q.object.clone()))
                .collect();
            assert_eq!(
                links, expected,
                "only stored, local links should be emitted"
            );
            sets.push(quads.into_iter().collect::<std::collections::HashSet<_>>());
        }
    }
    for set in &sets[1..] {
        assert_eq!(&sets[0], set);
    }
}

#[test]
fn a_derivation_says_it_is_one_and_names_its_premises() {
    let derived = ExportDerived {
        id: id(7),
        subject_id: id(10),
        predicate_id: id(2),
        object_id: Some(id(11)),
        object_value: None,
        rule_id: Some(id(8)),
        attribute_rule_id: None,
        valid_from: None,
        valid_from_precision: None,
        valid_to: None,
        valid_to_precision: None,
        derived_at: at("2026-02-01T00:00:00Z"),
        invalidated_at: None,
        confidence: conf(0.8),
        premises: vec![
            ExportPremise {
                seq: 1,
                fact_id: Some(id(5)),
                derived_id: None,
            },
            ExportPremise {
                seq: 2,
                fact_id: None,
                derived_id: Some(id(6)),
            },
        ],
        subject_kb: Some(kb()),
        object_kb: Some(kb()),
        predicate_kb: Some(kb()),
        rule_kb: Some(kb()),
        attribute_rule_kb: None,
        foreign_fact_premise: false,
        foreign_derived_premise: false,
        subject_merged: false,
        object_merged: false,
    };
    for format in [Format::Turtle, Format::JsonLd] {
        let quads = export(format, |sink, names, vocab| {
            emit_derived(sink, names, vocab, &derived).unwrap();
        });
        let stmt = "<urn:utopia:kb:01a06dc4-f40a-7013-b09f-1b499e2e7441:derived:07070707-0707-0707-0707-070707070707>";
        assert!(has(
            &quads,
            stmt,
            "urn:utopia:ns:derived",
            "\"true\"^^<http://www.w3.org/2001/XMLSchema#boolean>"
        ));
        assert_eq!(
            objects(&quads, stmt, "http://www.w3.org/ns/prov#used"),
            vec![
                STMT.to_string(),
                node(&Names::new(kb(), None).unwrap().derived(id(6))).to_string()
            ]
        );
        let premise_nodes = objects(&quads, stmt, "urn:utopia:ns:premise");
        assert_eq!(premise_nodes.len(), 2, "one node for each premise");
        let p2 = "<urn:utopia:kb:01a06dc4-f40a-7013-b09f-1b499e2e7441:premise:07070707-0707-0707-0707-070707070707:2>";
        assert!(has(
            &quads,
            p2,
            "urn:utopia:ns:seq",
            "\"2\"^^<http://www.w3.org/2001/XMLSchema#integer>"
        ));
        assert_eq!(
            objects(&quads, p2, "http://www.w3.org/ns/prov#used"),
            vec![node(&Names::new(kb(), None).unwrap().derived(id(6))).to_string()]
        );
        assert!(
            !has(&quads, SUBJ, WORKS_FOR, OBJ),
            "a conclusion is no plain edge"
        );
    }
}

#[test]
fn evidence_points_back_at_the_document_and_the_sentence() {
    let mut cited = fact(5);
    cited.documents = vec![id(12)];
    cited.quotes = vec!["Lin Zhao joined Acme in 2023.".into()];
    let quads = export(Format::Turtle, |sink, names, vocab| {
        emit_fact(sink, names, vocab, &cited, at("2026-06-01T00:00:00Z")).unwrap();
    });
    assert_eq!(
        objects(&quads, STMT, "http://www.w3.org/ns/prov#wasDerivedFrom"),
        vec!["<urn:utopia:kb:01a06dc4-f40a-7013-b09f-1b499e2e7441:document:0c0c0c0c-0c0c-0c0c-0c0c-0c0c0c0c0c0c>"]
    );
    assert_eq!(
        objects(&quads, STMT, "urn:utopia:ns:quote"),
        vec!["\"Lin Zhao joined Acme in 2023.\""]
    );
}

#[test]
fn json_ld_carries_the_same_triples() {
    let emit = |sink: &mut Sink, names: &Names, vocab: &Vocabulary| {
        emit_fact(sink, names, vocab, &fact(5), at("2026-06-01T00:00:00Z")).unwrap();
    };
    let ttl = export(Format::Turtle, emit);
    let jsonld = export(Format::JsonLd, emit);
    assert_eq!(
        ttl.len(),
        jsonld.len(),
        "both formats carry the same graph"
    );
    assert!(has(&jsonld, SUBJ, WORKS_FOR, OBJ));
}

#[test]
fn a_published_deployment_can_mint_http_iris() {
    let names = Names::new(kb(), Some("https://acme.example/utopia/")).unwrap();
    assert_eq!(
        names.entity(id(10)).as_str(),
        "https://acme.example/utopia/kb/01a06dc4-f40a-7013-b09f-1b499e2e7441/entity/0a0a0a0a-0a0a-0a0a-0a0a-0a0a0a0a0a0a"
    );
    assert!(Names::new(kb(), Some("javascript:alert(1)")).is_err());
    assert!(Names::new(kb(), Some("https://acme.example/a b")).is_err());
}

#[test]
fn a_chunk_carries_its_locator_back_to_the_document() {
    let quads = export(Format::Turtle, |sink, names, _| {
        emit_chunk(sink, names, &chunk(13)).unwrap();
    });
    let iri = "<urn:utopia:kb:01a06dc4-f40a-7013-b09f-1b499e2e7441:chunk:0d0d0d0d-0d0d-0d0d-0d0d-0d0d0d0d0d0d>";
    assert!(has(
        &quads,
        iri,
        "http://www.w3.org/1999/02/22-rdf-syntax-ns#type",
        "urn:utopia:ns:Chunk"
    ));
    assert_eq!(
        objects(&quads, iri, "https://schema.org/isPartOf"),
        vec!["<urn:utopia:kb:01a06dc4-f40a-7013-b09f-1b499e2e7441:document:0c0c0c0c-0c0c-0c0c-0c0c-0c0c0c0c0c0c>"]
    );
    assert_eq!(
        objects(&quads, iri, "https://schema.org/position"),
        vec!["\"3\"^^<http://www.w3.org/2001/XMLSchema#integer>"]
    );
    assert_eq!(
        objects(&quads, iri, "urn:utopia:ns:charStart"),
        vec!["\"120\"^^<http://www.w3.org/2001/XMLSchema#integer>"]
    );
    assert_eq!(
        objects(&quads, iri, "urn:utopia:ns:docVersion"),
        vec!["\"2\"^^<http://www.w3.org/2001/XMLSchema#integer>"]
    );
    let mut old = chunk(14);
    old.superseded_at = Some(at("2026-04-01T00:00:00Z"));
    let quads = export(Format::Turtle, |sink, names, _| {
        emit_chunk(sink, names, &old).unwrap();
    });
    let iri = "<urn:utopia:kb:01a06dc4-f40a-7013-b09f-1b499e2e7441:chunk:0e0e0e0e-0e0e-0e0e-0e0e-0e0e0e0e0e0e>";
    assert_eq!(
        objects(&quads, iri, "http://www.w3.org/ns/prov#invalidatedAtTime"),
        vec!["\"2026-04-01T00:00:00Z\"^^<http://www.w3.org/2001/XMLSchema#dateTime>"]
    );
}

#[test]
fn evidence_keeps_the_quote_attached_to_its_chunk() {
    let e = ExportEvidence {
        fact_id: id(5),
        chunk_id: id(13),
        document_id: Some(id(12)),
        doc_version: Some(2),
        version_row: false,
        quote: Some("Lin Zhao joined Acme in 2023.".into()),
        quote_start: None,
        quote_end: None,
        proposed_predicate: None,
        chunk_kb: Some(kb()),
        document_kb: Some(kb()),
    };
    for format in [Format::Turtle, Format::JsonLd] {
        let quads = export(format, |sink, names, _| {
            emit_evidence(sink, names, &e).unwrap();
        });
        let iri = "<urn:utopia:kb:01a06dc4-f40a-7013-b09f-1b499e2e7441:evidence:05050505-0505-0505-0505-050505050505:0d0d0d0d-0d0d-0d0d-0d0d-0d0d0d0d0d0d>";
        assert!(has(
            &quads,
            iri,
            "http://www.w3.org/1999/02/22-rdf-syntax-ns#type",
            "urn:utopia:ns:Evidence"
        ));
        assert_eq!(
            objects(&quads, iri, "urn:utopia:ns:onStatement"),
            vec![STMT.to_string()]
        );
        assert_eq!(
            objects(&quads, iri, "urn:utopia:ns:fromChunk"),
            vec!["<urn:utopia:kb:01a06dc4-f40a-7013-b09f-1b499e2e7441:chunk:0d0d0d0d-0d0d-0d0d-0d0d-0d0d0d0d0d0d>"]
        );
        assert_eq!(
            objects(&quads, iri, "urn:utopia:ns:quote"),
            vec!["\"Lin Zhao joined Acme in 2023.\""]
        );
        assert_eq!(
            objects(&quads, iri, "urn:utopia:ns:docVersion"),
            vec!["\"2\"^^<http://www.w3.org/2001/XMLSchema#integer>"]
        );
    }
}

#[test]
fn an_open_statement_carries_its_own_ledger() {
    let mut open = fact(38);
    open.layer = "open".into();
    open.predicate_id = None;
    open.predicate_kb = None;
    open.phrase = Some("joined".into());
    open.surface_predicate = Some("employs".into());
    open.valid_from_grade = Some("B".into());
    open.statement_qualifiers = vec![
        ExportStatementQualifier {
            fact_id: id(38),
            role: "since".into(),
            value: Some(j(r#""2023-04""#)),
            entity_id: None,
            entity_kb: None,
            entity_merged: false,
        },
        ExportStatementQualifier {
            fact_id: id(38),
            role: "witness".into(),
            value: None,
            entity_id: Some(id(11)),
            entity_kb: Some(kb()),
            entity_merged: false,
        },
    ];
    open.time_mentions = vec![ExportTimeMention {
        id: id(40),
        kb_id: kb(),
        fact_id: id(38),
        chunk_id: id(13),
        chunk_kb: Some(kb()),
        role: "when".into(),
        text: "去年四月".into(),
        char_start: 12,
        shape: Some("point".into()),
        reference: Some(j(r#"{"kind": "month"}"#)),
        granularity: Some("month".into()),
        resolved_from: Some(at("2023-04-01T00:00:00Z")),
        resolved_from_precision: Some("month".into()),
        resolved_to: None,
        resolved_to_precision: None,
        resolved_at: None,
        grade: Some("B".into()),
        recorded_at: at("2026-02-15T00:00:00Z"),
    }];
    let mut typed = fact(39);
    typed.source_statements = vec![id(38)];
    let mut f = fact(5);
    f.quote_origins = vec!["pasted".into()];

    let quads = export(Format::Turtle, |sink, names, vocab| {
        emit_fact(sink, names, vocab, &open, at("2026-06-01T00:00:00Z")).unwrap();
        emit_fact(sink, names, vocab, &typed, at("2026-06-01T00:00:00Z")).unwrap();
        emit_fact(sink, names, vocab, &f, at("2026-06-01T00:00:00Z")).unwrap();
    });
    let stmt = "<urn:utopia:kb:01a06dc4-f40a-7013-b09f-1b499e2e7441:fact:26262626-2626-2626-2626-262626262626>";
    assert!(has(
        &quads,
        stmt,
        "http://www.w3.org/1999/02/22-rdf-syntax-ns#type",
        "urn:utopia:ns:OpenStatement"
    ));
    assert_eq!(
        objects(&quads, stmt, "urn:utopia:ns:statementLayer"),
        vec!["\"open\""]
    );
    assert_eq!(
        objects(&quads, stmt, "http://www.w3.org/2000/01/rdf-schema#label"),
        vec!["\"joined\""]
    );
    assert_eq!(
        objects(&quads, stmt, "urn:utopia:ns:proposedPredicate"),
        vec!["\"employs\""]
    );
    assert_eq!(
        objects(&quads, stmt, "urn:utopia:ns:validFromGrade"),
        vec!["\"B\""]
    );
    let typed_iri = "<urn:utopia:kb:01a06dc4-f40a-7013-b09f-1b499e2e7441:fact:27272727-2727-2727-2727-272727272727>";
    assert_eq!(
        objects(&quads, typed_iri, "urn:utopia:ns:fromStatement"),
        vec![
            "<urn:utopia:kb:01a06dc4-f40a-7013-b09f-1b499e2e7441:fact:26262626-2626-2626-2626-262626262626>"
                .to_string()
        ]
    );
    assert_eq!(
        objects(&quads, STMT, "urn:utopia:ns:evidenceOrigin"),
        vec!["\"pasted\""]
    );
    let qnodes = objects(&quads, stmt, "urn:utopia:ns:statementQualifier");
    assert_eq!(qnodes.len(), 2, "one node for each property");
    let has_q = |role: &str, pred: &str, obj: &str| {
        qnodes.iter().any(|q| {
            quads.iter().any(|x| {
                x.subject.to_string() == *q
                    && x.predicate.to_string() == "<urn:utopia:ns:role>"
                    && x.object.to_string() == role
            }) && quads.iter().any(|x| {
                x.subject.to_string() == *q
                    && x.predicate.to_string() == format!("<{pred}>")
                    && x.object.to_string() == obj
            })
        })
    };
    assert!(has_q(
        "\"since\"",
        "urn:utopia:ns:qualifierValue",
        "\"\\\"2023-04\\\"\""
    ));
    assert!(has_q(
        "\"witness\"",
        "http://www.w3.org/ns/prov#value",
        "<urn:utopia:kb:01a06dc4-f40a-7013-b09f-1b499e2e7441:entity:0b0b0b0b-0b0b-0b0b-0b0b-0b0b0b0b0b0b>"
    ));
    let mn = "<urn:utopia:kb:01a06dc4-f40a-7013-b09f-1b499e2e7441:timemention:28282828-2828-2828-2828-282828282828>";
    assert_eq!(
        objects(&quads, stmt, "urn:utopia:ns:timeMention"),
        vec![mn.to_string()]
    );
    assert!(has(
        &quads,
        mn,
        "http://www.w3.org/1999/02/22-rdf-syntax-ns#type",
        "urn:utopia:ns:TimeMention"
    ));
    assert_eq!(
        objects(&quads, mn, "urn:utopia:ns:text"),
        vec!["\"去年四月\""]
    );
    assert_eq!(
        objects(&quads, mn, "urn:utopia:ns:onChunk"),
        vec!["<urn:utopia:kb:01a06dc4-f40a-7013-b09f-1b499e2e7441:chunk:0d0d0d0d-0d0d-0d0d-0d0d-0d0d0d0d0d0d>"]
    );
    assert_eq!(
        objects(&quads, mn, "urn:utopia:ns:resolvedFrom"),
        vec!["\"2023-04\"^^<http://www.w3.org/2001/XMLSchema#gYearMonth>"]
    );
    assert_eq!(objects(&quads, mn, "urn:utopia:ns:grade"), vec!["\"B\""]);
}

#[test]
fn an_attribute_keeps_the_unit_it_was_recorded_in() {
    let mut attr = fact(5);
    attr.predicate_id = Some(id(4));
    attr.object_id = None;
    attr.object_value = Some(j(r#"{"value": 65, "unit": "%"}"#));
    let quads = export(Format::Turtle, |sink, names, vocab| {
        emit_fact(sink, names, vocab, &attr, at("2026-06-01T00:00:00Z")).unwrap();
    });
    assert_eq!(objects(&quads, STMT, "urn:utopia:ns:unit"), vec!["\"%\""]);
    assert_eq!(
        objects(
            &quads,
            STMT,
            "http://www.w3.org/1999/02/22-rdf-syntax-ns#object"
        ),
        vec!["\"65\"^^<http://www.w3.org/2001/XMLSchema#decimal>"]
    );
    let mut plain = fact(5);
    plain.predicate_id = Some(id(4));
    plain.object_id = None;
    plain.object_value = Some(j(r#"{"value": 65}"#));
    let quads = export(Format::Turtle, |sink, names, vocab| {
        emit_fact(sink, names, vocab, &plain, at("2026-06-01T00:00:00Z")).unwrap();
    });
    assert!(objects(&quads, STMT, "urn:utopia:ns:unit").is_empty());
}

#[test]
fn qualifiers_arrive_literal_and_entity() {
    let mut f = fact(5);
    f.qualifiers = vec![
        FactQualifier {
            qualifier_type_id: id(4),
            key: "headcount".into(),
            label: "headcount".into(),
            value: Some(j(r#"{"value": 42}"#)),
            entity_id: None,
            entity_name: None,
        },
        FactQualifier {
            qualifier_type_id: id(2),
            key: "works_for".into(),
            label: "works_for".into(),
            value: None,
            entity_id: Some(id(11)),
            entity_name: Some("Acme".into()),
        },
    ];
    for format in [Format::Turtle, Format::JsonLd] {
        let quads = export(format, |sink, names, vocab| {
            emit_fact(sink, names, vocab, &f, at("2026-06-01T00:00:00Z")).unwrap();
        });
        assert_eq!(
            objects(
                &quads,
                STMT,
                "urn:utopia:kb:01a06dc4-f40a-7013-b09f-1b499e2e7441:relation:headcount"
            ),
            vec!["\"42\"^^<http://www.w3.org/2001/XMLSchema#decimal>"],
            "a literal qualifier has the datatype of its type"
        );
        assert_eq!(
            objects(&quads, STMT, WORKS_FOR),
            vec![OBJ.to_string()],
            "an entity qualifier is an entity"
        );
    }
}

#[test]
fn a_qualifier_whose_type_isnt_resolvable_fails_closed() {
    let names = Names::new(kb(), None).unwrap();
    let relations = vec![relation(2, "works_for", None, "relation")];
    let vocab = vocabulary(&names, &[], &relations);
    let buf = SharedBuf::default();
    let mut sink = Sink::new(Format::Turtle, buf);
    let mut f = fact(5);
    f.qualifiers = vec![FactQualifier {
        qualifier_type_id: id(99),
        key: "foreign".into(),
        label: "foreign".into(),
        value: Some(j(r#"{"value": 1}"#)),
        entity_id: None,
        entity_name: None,
    }];
    let err = emit_fact(&mut sink, &names, &vocab, &f, at("2026-06-01T00:00:00Z"));
    assert!(err.is_err(), "an unknown type of qualifier is refused");

    let mut f = fact(5);
    f.predicate_id = Some(id(99));
    f.predicate_kb = Some(kb());
    let buf = SharedBuf::default();
    let mut sink = Sink::new(Format::Turtle, buf);
    let err = emit_fact(&mut sink, &names, &vocab, &f, at("2026-06-01T00:00:00Z"));
    assert!(err.is_err(), "an unknown predicate is refused");
}

#[test]
fn the_serializer_refuses_to_mint_foreign_iris() {
    let names = Names::new(kb(), None).unwrap();
    let relations = vec![relation(2, "works_for", None, "relation")];
    let vocab = vocabulary(&names, &[], &relations);
    let foreign = Uuid::from_u128(uuid::Uuid::now_v7().as_u128());
    let buf = SharedBuf::default();
    let mut sink = Sink::new(Format::Turtle, buf);

    let mut f = fact(5);
    f.subject_kb = Some(foreign);
    assert!(emit_fact(&mut sink, &names, &vocab, &f, at("2026-06-01T00:00:00Z")).is_err());

    let mut f = fact(5);
    f.supersedes = Some(id(6));
    f.supersedes_kb = Some(foreign);
    assert!(emit_fact(&mut sink, &names, &vocab, &f, at("2026-06-01T00:00:00Z")).is_err());

    let mut f = fact(5);
    f.foreign_document = true;
    assert!(emit_fact(&mut sink, &names, &vocab, &f, at("2026-06-01T00:00:00Z")).is_err());

    let mut d = derived(7);
    d.foreign_fact_premise = true;
    assert!(emit_derived(&mut sink, &names, &vocab, &d).is_err());
    let mut d = derived(7);
    d.foreign_derived_premise = true;
    assert!(emit_derived(&mut sink, &names, &vocab, &d).is_err());
    let mut d = derived(7);
    d.rule_kb = Some(foreign);
    assert!(emit_derived(&mut sink, &names, &vocab, &d).is_err());

    let mut c = chunk(13);
    c.document_kb = Some(foreign);
    assert!(emit_chunk(&mut sink, &names, &c).is_err());
    c.document_kb = None;
    assert!(emit_chunk(&mut sink, &names, &c).is_err());

    let e = ExportEvidence {
        fact_id: id(5),
        chunk_id: id(13),
        document_id: None,
        doc_version: None,
        version_row: false,
        quote: None,
        quote_start: None,
        quote_end: None,
        proposed_predicate: None,
        chunk_kb: Some(foreign),
        document_kb: None,
    };
    assert!(emit_evidence(&mut sink, &names, &e).is_err());
    let _ = sink.take();
}

#[test]
fn the_ledgers_lifecycle_marks_all_arrive() {
    let mut retracted = fact(5);
    retracted.invalidated_at = Some(at("2026-03-01T00:00:00Z"));
    retracted.supersedes = Some(id(6));
    retracted.supersedes_kb = Some(kb());
    let quads = export(Format::Turtle, |sink, names, vocab| {
        emit_fact(sink, names, vocab, &retracted, at("2026-06-01T00:00:00Z")).unwrap();
    });
    assert_eq!(
        objects(&quads, STMT, "http://www.w3.org/ns/prov#invalidatedAtTime"),
        vec!["\"2026-03-01T00:00:00Z\"^^<http://www.w3.org/2001/XMLSchema#dateTime>"],
        "the time of the retraction arrives"
    );
    assert_eq!(
        objects(&quads, STMT, "urn:utopia:ns:supersedes"),
        vec!["<urn:utopia:kb:01a06dc4-f40a-7013-b09f-1b499e2e7441:fact:06060606-0606-0606-0606-060606060606>"],
        "the link to the superseded fact arrives"
    );

    let mut dead = derived(7);
    dead.invalidated_at = Some(at("2026-03-02T00:00:00Z"));
    let quads = export(Format::Turtle, |sink, names, vocab| {
        emit_derived(sink, names, vocab, &dead).unwrap();
    });
    let stmt = "<urn:utopia:kb:01a06dc4-f40a-7013-b09f-1b499e2e7441:derived:07070707-0707-0707-0707-070707070707>";
    assert_eq!(
        objects(&quads, stmt, "http://www.w3.org/ns/prov#invalidatedAtTime"),
        vec!["\"2026-03-02T00:00:00Z\"^^<http://www.w3.org/2001/XMLSchema#dateTime>"],
        "the time of the invalidation arrives"
    );

    let doc = ExportDocument {
        id: id(12),
        filename: "gone.md".into(),
        external_key: None,
        sha256: "a".repeat(64),
        mime: "text/markdown".into(),
        size_bytes: 42,
        doc_time_source: "document".into(),
        tags: vec![],
        doc_time: None,
        created_at: at("2026-01-01T00:00:00Z"),
        deleted_at: Some(at("2026-04-01T00:00:00Z")),
        purged_at: None,
        reader_needed: None,
        time_context: None,
        time_context_at: None,
    };
    let quads = export(Format::Turtle, |sink, names, _| {
        emit_document(sink, names, &doc).unwrap();
    });
    let iri = "<urn:utopia:kb:01a06dc4-f40a-7013-b09f-1b499e2e7441:document:0c0c0c0c-0c0c-0c0c-0c0c-0c0c0c0c0c0c>";
    assert_eq!(
        objects(&quads, iri, "http://www.w3.org/ns/prov#invalidatedAtTime"),
        vec!["\"2026-04-01T00:00:00Z\"^^<http://www.w3.org/2001/XMLSchema#dateTime>"],
        "the time of the deletion arrives"
    );
}

#[test]
fn a_relations_axioms_reach_the_export() {
    let mut spouse = relation(20, "spouse", None, "relation");
    spouse.inverse_of = Some(id(21));
    spouse.sub_property_of = Some(id(22));
    spouse.qualifiers = vec![id(4)];
    spouse.builtin = true;
    let partner = relation(21, "partner", None, "relation");
    let kin = relation(22, "kin", None, "relation");
    let mut rate = relation(23, "headcount_rate", None, "attribute");
    rate.datatype = Some("percent".into());

    for format in [Format::Turtle, Format::JsonLd] {
        let names = Names::new(kb(), None).unwrap();
        let relations = vec![
            spouse.clone(),
            partner.clone(),
            kin.clone(),
            rate.clone(),
            relation(4, "as_of", None, "attribute"),
        ];
        let vocab = vocabulary(&names, &[], &relations);
        let buf = SharedBuf::default();
        let mut sink = Sink::new(format, buf);
        for r in &relations {
            emit_relation(&mut sink, &vocab, r).unwrap();
        }
        let quads = parsed(format, &sink.finish().take());
        let s = "<urn:utopia:kb:01a06dc4-f40a-7013-b09f-1b499e2e7441:relation:spouse>";
        let partner_iri =
            "<urn:utopia:kb:01a06dc4-f40a-7013-b09f-1b499e2e7441:relation:partner>";
        let kin_iri = "<urn:utopia:kb:01a06dc4-f40a-7013-b09f-1b499e2e7441:relation:kin>";
        assert!(has(
            &quads,
            s,
            "http://www.w3.org/2002/07/owl#inverseOf",
            partner_iri
        ));
        assert!(has(
            &quads,
            s,
            "http://www.w3.org/2000/01/rdf-schema#subPropertyOf",
            kin_iri
        ));
        assert_eq!(
            objects(&quads, s, "urn:utopia:ns:allowedQualifier"),
            vec!["<urn:utopia:kb:01a06dc4-f40a-7013-b09f-1b499e2e7441:relation:as_of>"]
        );
        assert!(has(
            &quads,
            s,
            "urn:utopia:ns:builtin",
            "\"true\"^^<http://www.w3.org/2001/XMLSchema#boolean>"
        ));
        assert_eq!(
            objects(
                &quads,
                "<urn:utopia:kb:01a06dc4-f40a-7013-b09f-1b499e2e7441:relation:headcount_rate>",
                "urn:utopia:ns:datatype"
            ),
            vec!["\"percent\""],
            "the declared datatype arrives"
        );
    }

    let mut bad = relation(30, "widowed_from", None, "relation");
    bad.inverse_of = Some(id(99));
    let names = Names::new(kb(), None).unwrap();
    let vocab = vocabulary(&names, &[], &[bad.clone()]);
    let buf = SharedBuf::default();
    let mut sink = Sink::new(Format::Turtle, buf);
    assert!(emit_relation(&mut sink, &vocab, &bad).is_err());
}

#[test]
fn a_reference_to_a_merged_entity_refuses_the_export() {
    let mut f = fact(5);
    f.subject_merged = true;
    let names = Names::new(kb(), None).unwrap();
    let classes = vec![class(1, "person", Some("https://schema.org/Person"))];
    let relations = vec![relation(2, "works_for", None, "relation")];
    let vocab = vocabulary(&names, &classes, &relations);
    let buf = SharedBuf::default();
    let mut sink = Sink::new(Format::Turtle, buf);
    assert!(
        emit_fact(&mut sink, &names, &vocab, &f, at("2026-06-01T00:00:00Z")).is_err(),
        "merged subject must refuse the export"
    );

    let mut d = derived(7);
    d.object_merged = true;
    let buf = SharedBuf::default();
    let mut sink = Sink::new(Format::Turtle, buf);
    assert!(
        emit_derived(&mut sink, &names, &vocab, &d).is_err(),
        "merged object must refuse the export"
    );
}

#[test]
fn a_fact_keeps_its_world_anchors_and_origin_flags() {
    let mut f = fact(5);
    f.attested_to = Some(at("2026-03-15T00:00:00Z"));
    f.end_derived = true;
    f.rule_derived = true;
    for format in [Format::Turtle, Format::JsonLd] {
        let quads = export(format, |sink, names, vocab| {
            emit_fact(sink, names, vocab, &f, at("2026-06-01T00:00:00Z")).unwrap();
        });
        assert_eq!(
            objects(&quads, STMT, "urn:utopia:ns:attestedFrom"),
            vec!["\"2026-01-01T00:00:00Z\"^^<http://www.w3.org/2001/XMLSchema#dateTime>"]
        );
        assert_eq!(
            objects(&quads, STMT, "urn:utopia:ns:attestedTo"),
            vec!["\"2026-03-15T00:00:00Z\"^^<http://www.w3.org/2001/XMLSchema#dateTime>"]
        );
        assert!(has(
            &quads,
            STMT,
            "urn:utopia:ns:endDerived",
            "\"true\"^^<http://www.w3.org/2001/XMLSchema#boolean>"
        ));
        assert!(has(
            &quads,
            STMT,
            "urn:utopia:ns:ruleDerived",
            "\"true\"^^<http://www.w3.org/2001/XMLSchema#boolean>"
        ));
    }
}

#[test]
fn a_rule_names_its_kind_and_predicate() {
    let r = ExportRule {
        id: id(8),
        kind: "transitive".into(),
        predicate_id: id(2),
        predicate_kb: Some(kb()),
    };
    for format in [Format::Turtle, Format::JsonLd] {
        let quads = export(format, |sink, names, vocab| {
            emit_rule(sink, names, vocab, &r).unwrap();
        });
        let iri = "<urn:utopia:kb:01a06dc4-f40a-7013-b09f-1b499e2e7441:rule:08080808-0808-0808-0808-080808080808>";
        assert!(has(
            &quads,
            iri,
            "http://www.w3.org/1999/02/22-rdf-syntax-ns#type",
            "http://www.w3.org/ns/prov#Activity"
        ));
        assert_eq!(
            objects(&quads, iri, "urn:utopia:ns:ruleKind"),
            vec!["\"transitive\""]
        );
        assert_eq!(
            objects(&quads, iri, "urn:utopia:ns:onPredicate"),
            vec!["<https://schema.org/worksFor>".to_string()]
        );
    }
}
