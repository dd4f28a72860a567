//! The whole of an export, triple by triple: what the rows of a fixture have to say is derived from
//! them independently of the library, and the parsed export is compared with it as a set.
use ledger_rdf::emit_derived::emit_derived;
use ledger_rdf::emit_fact::emit_fact;
use ledger_rdf::emit_ontology::{emit_class, emit_relation, emit_rule};
use ledger_rdf::emit_rules::emit_attribute_rule;
use ledger_rdf::emit_sources::{
    emit_chunk, emit_document, emit_docversion, emit_entity, emit_evidence,
};
use ledger_rdf::json::Json;
use ledger_rdf::names::Names;
use ledger_rdf::rows::{
    ExportAttributeRule, ExportChunk, ExportClass, ExportDerived, ExportDocument,
    ExportDocumentVersion, ExportEntity, ExportEvidence, ExportFact, ExportPremise, ExportRelation,
    ExportRule, ExportRuleCondition, ExportStatementQualifier, ExportTimeMention, FactQualifier,
};
use ledger_rdf::sink::{Format, SharedBuf, Sink};
use ledger_rdf::time::DateTime;
use ledger_rdf::uuid::Uuid;
use ledger_rdf::vocabulary::vocabulary;
use oxrdf::vocab::xsd;
use oxrdf::{GraphName, Literal, NamedNode, NamedOrBlankNode, Quad, Term};
use std::collections::{BTreeSet, HashMap, HashSet};

fn kb() -> Uuid {
    Uuid::parse_str("01a06dc4-f40a-7013-b09f-1b499e2e7441").unwrap()
}

fn id(n: u8) -> Uuid {
    Uuid::from_u128(u128::from_be_bytes([n; 16]))
}

fn at(s: &str) -> DateTime {
    let t: chrono::DateTime<chrono::Utc> = s.parse().unwrap();
    DateTime::from_timestamp(t.timestamp(), t.timestamp_subsec_nanos()).unwrap()
}

fn conf(c: f32) -> String {
    format!("{c:.2}")
}

fn json_of(v: serde_json::Value) -> Json {
    match v {
        serde_json::Value::Null => Json::Null,
        serde_json::Value::Bool(b) => Json::Bool(b),
        serde_json::Value::Number(n) => Json::Number(n),
        serde_json::Value::String(s) => Json::Text(s),
        serde_json::Value::Array(a) => Json::Array(a.into_iter().map(json_of).collect()),
        serde_json::Value::Object(o) => {
            Json::Object(o.into_iter().map(|(k, v)| (k, json_of(v))).collect())
        }
    }
}

fn j(s: &str) -> Json {
    json_of(serde_json::from_str(s).unwrap())
}

fn class(n: u8, key: &str, iri: Option<&str>) -> ExportClass {
    ExportClass {
        id: id(n),
        key: key.into(),
        label: key.into(),
        description: String::new(),
        iri: iri.map(str::to_string),
        builtin: false,
        parents: vec![],
        primary_parents: vec![],
        disjoint: vec![],
        updated_at: at("2026-01-01T00:00:00Z"),
    }
}

fn relation(n: u8, key: &str, iri: Option<&str>, kind: &str) -> ExportRelation {
    ExportRelation {
        id: id(n),
        key: key.into(),
        label: key.into(),
        description: String::new(),
        iri: iri.map(str::to_string),
        kind: kind.into(),
        datatype: (kind == "attribute").then_some("number".to_string()),
        unit: None,
        temporal: "state".into(),
        functional: true,
        inverse_functional: false,
        is_transitive: false,
        is_symmetric: false,
        is_asymmetric: false,
        is_irreflexive: false,
        builtin: false,
        inverse_of: None,
        sub_property_of: None,
        qualifiers: vec![],
        domains: vec![],
        ranges: vec![],
        updated_at: at("2026-01-01T00:00:00Z"),
    }
}

fn fact(n: u8) -> ExportFact {
    ExportFact {
        qualifiers: Vec::new(),
        id: id(n),
        subject_id: id(10),
        predicate_id: Some(id(2)),
        surface_predicate: None,
        object_id: Some(id(11)),
        object_value: None,
        layer: "typed".into(),
        phrase: None,
        source_statements: vec![],
        foreign_source: false,
        statement_qualifiers: vec![],
        time_mentions: vec![],
        valid_from_grade: None,
        valid_from: None,
        valid_from_precision: None,
        valid_to: None,
        valid_to_precision: None,
        holds_from: Some(at("2026-01-01T00:00:00Z")),
        holds_to: None,
        attested_from: at("2026-01-01T00:00:00Z"),
        attested_to: None,
        end_derived: false,
        rule_derived: false,
        recorded_at: at("2026-01-01T00:00:00Z"),
        invalidated_at: None,
        confidence: conf(0.9),
        supersedes: None,
        documents: vec![],
        quotes: vec![],
        quote_origins: vec![],
        subject_kb: Some(kb()),
        object_kb: Some(kb()),
        predicate_kb: Some(kb()),
        supersedes_kb: None,
        foreign_document: false,
        subject_merged: false,
        object_merged: false,
    }
}

fn derived(n: u8) -> ExportDerived {
    ExportDerived {
        id: id(n),
        subject_id: id(10),
        predicate_id: id(2),
        object_id: Some(id(11)),
        object_value: None,
        rule_id: Some(id(8)),
        attribute_rule_id: None,
        valid_from: None,
        valid_from_precision: None,
        valid_to: None,
        valid_to_precision: None,
        derived_at: at("2026-02-01T00:00:00Z"),
        invalidated_at: None,
        confidence: conf(0.8),
        premises: vec![ExportPremise { seq: 1, fact_id: Some(id(5)), derived_id: None }],
        subject_kb: Some(kb()),
        object_kb: Some(kb()),
        predicate_kb: Some(kb()),
        rule_kb: Some(kb()),
        attribute_rule_kb: None,
        foreign_fact_premise: false,
        foreign_derived_premise: false,
        subject_merged: false,
        object_merged: false,
    }
}

fn chunk(n: u8) -> ExportChunk {
    ExportChunk {
        id: id(n),
        document_id: id(12),
        seq: 3,
        heading: Some("Q3 review".into()),
        char_start: 120,
        char_end: 204,
        doc_version: 2,
        version_row: false,
        superseded_at: None,
        extracted_at: None,
        origin: "stated".into(),
        origin_model: None,
        anchor: None,
        created_at: at("2026-01-01T00:00:00Z"),
        document_kb: Some(kb()),
    }
}

fn parsed(format: Format, bytes: &[u8]) -> Vec<Quad> {
    oxrdfio::RdfParser::from_format(match format {
        Format::Turtle => oxrdfio::RdfFormat::Turtle,
        Format::JsonLd => {
            oxrdfio::RdfFormat::JsonLd { profile: oxrdfio::JsonLdProfileSet::empty() }
        }
    })
    .for_slice(bytes)
    .map(|q| q.expect("an exported file must parse"))
    .collect()
}

fn value_of(v: &Json) -> serde_json::Value {
    match v {
        Json::Null => serde_json::Value::Null,
        Json::Bool(b) => serde_json::Value::Bool(*b),
        Json::Number(n) => serde_json::Value::Number(n.clone()),
        Json::Text(s) => serde_json::Value::String(s.clone()),
        Json::Array(a) => serde_json::Value::Array(a.iter().map(value_of).collect()),
        Json::Object(o) => {
            serde_json::Value::Object(o.iter().map(|(k, v)| (k.clone(), value_of(v))).collect())
        }
    }
}

fn instant(t: DateTime) -> chrono::DateTime<chrono::Utc> {
    t.to_rfc3339().parse().unwrap()
}

const NOW: &str = "2026-06-01T00:00:00Z";

fn now() -> DateTime {
    at(NOW)
}

fn mint(kind: &str, ident: &str) -> NamedNode {
    NamedNode::new(format!("urn:utopia:kb:{}:{kind}:{ident}", kb().to_string())).unwrap()
}

fn t_dt(t: DateTime) -> Term {
    Literal::new_typed_literal(
        instant(t).to_rfc3339_opts(chrono::SecondsFormat::AutoSi, true),
        xsd::DATE_TIME,
    )
    .into()
}

fn t_str(s: impl Into<String>) -> Term {
    Literal::new_simple_literal(s.into()).into()
}

fn t_int(i: i64) -> Term {
    Literal::new_typed_literal(i.to_string(), xsd::INTEGER).into()
}

fn t_dec(c: &str) -> Term {
    Literal::new_typed_literal(c, xsd::DECIMAL).into()
}

fn t_flag() -> Term {
    Literal::new_typed_literal("true", xsd::BOOLEAN).into()
}

fn t_world(t: DateTime, prec: Option<&str>) -> Term {
    let t = instant(t);
    let iso = t.format("%Y-%m-%d").to_string();
    match prec {
        Some("year") => Literal::new_typed_literal(iso[..4].to_string(), xsd::G_YEAR),
        Some("month") => {
            Literal::new_typed_literal(iso[..7].to_string(), xsd::G_YEAR_MONTH)
        }
        Some("hour" | "minute" | "second") => Literal::new_typed_literal(
            t.to_rfc3339_opts(chrono::SecondsFormat::Secs, true),
            xsd::DATE_TIME,
        ),
        _ => Literal::new_typed_literal(iso, xsd::DATE),
    }
    .into()
}

fn t_value(v: &Json, datatype: Option<&str>) -> Term {
    let v = &value_of(v);
    let raw = v.get("value").unwrap_or(v);
    let text = match raw {
        serde_json::Value::String(s) => s.clone(),
        serde_json::Value::Null => v
            .get("summary")
            .and_then(|s| s.as_str())
            .unwrap_or_default()
            .to_string(),
        other => other.to_string(),
    };
    let ty = if v.get("relative").and_then(|r| r.as_bool()) == Some(true) {
        xsd::STRING
    } else {
        match datatype {
            Some("number") => xsd::DECIMAL,
            Some("date") => xsd::DATE,
            Some("bool") => xsd::BOOLEAN,
            _ => xsd::STRING,
        }
    };
    Literal::new_typed_literal(text, ty).into()
}

fn walk(v: &serde_json::Value, out: &mut BTreeSet<u128>) {
    let Some(o) = v.as_object() else { return };
    if let Some(a) = o.get("attr").and_then(|a| a.as_str()) {
        if let Ok(u) = uuid::Uuid::parse_str(a) {
            out.insert(u.as_u128());
        }
    } else if o.contains_key("const") {
    } else if o.contains_key("op") {
        if let Some(l) = o.get("l") {
            walk(l, out);
        }
        if let Some(r) = o.get("r") {
            walk(r, out);
        }
    }
}

fn expr_attrs(v: &Json) -> BTreeSet<u128> {
    let mut out = BTreeSet::new();
    walk(&value_of(v), &mut out);
    out
}


fn nn2(iri: &str) -> NamedNode {
    NamedNode::new(iri).unwrap()
}

fn fixed_preds(kind: &str) -> &'static [&'static str] {
    match kind {
        "entity" => &[
            "http://www.w3.org/2000/01/rdf-schema#label",
            "http://www.w3.org/1999/02/22-rdf-syntax-ns#type",
            "http://www.w3.org/2000/01/rdf-schema#comment",
            "http://www.w3.org/ns/prov#generatedAtTime",
            "urn:utopia:ns:typeSource",
            "urn:utopia:ns:typeResolvedAt",
            "urn:utopia:ns:proposedType",
            "urn:utopia:ns:specificType",
        ],
        "fact" => &[
            "http://www.w3.org/1999/02/22-rdf-syntax-ns#type",
            "http://www.w3.org/2000/01/rdf-schema#label",
            "http://www.w3.org/1999/02/22-rdf-syntax-ns#subject",
            "http://www.w3.org/1999/02/22-rdf-syntax-ns#predicate",
            "http://www.w3.org/1999/02/22-rdf-syntax-ns#object",
            "urn:utopia:ns:statementLayer",
            "urn:utopia:ns:fromStatement",
            "urn:utopia:ns:supersedes",
            "urn:utopia:ns:proposedPredicate",
            "urn:utopia:ns:relativeValue",
            "urn:utopia:ns:unit",
            "https://schema.org/validFrom",
            "urn:utopia:ns:validFromPrecision",
            "urn:utopia:ns:validFromGrade",
            "https://schema.org/validThrough",
            "urn:utopia:ns:validThroughPrecision",
            "urn:utopia:ns:endedUnknown",
            "urn:utopia:ns:attestedFrom",
            "urn:utopia:ns:attestedTo",
            "urn:utopia:ns:endDerived",
            "urn:utopia:ns:ruleDerived",
            "http://www.w3.org/ns/prov#generatedAtTime",
            "http://www.w3.org/ns/prov#invalidatedAtTime",
            "urn:utopia:ns:confidence",
            "http://www.w3.org/ns/prov#wasDerivedFrom",
            "urn:utopia:ns:quote",
            "urn:utopia:ns:evidenceOrigin",
            "urn:utopia:ns:statementQualifier",
            "urn:utopia:ns:timeMention",
        ],
        "squalifier" => &[
            "http://www.w3.org/1999/02/22-rdf-syntax-ns#type",
            "urn:utopia:ns:role",
            "urn:utopia:ns:qualifierValue",
            "http://www.w3.org/ns/prov#value",
        ],
        "timemention" => &[
            "http://www.w3.org/1999/02/22-rdf-syntax-ns#type",
            "urn:utopia:ns:role",
            "urn:utopia:ns:text",
            "urn:utopia:ns:charStart",
            "urn:utopia:ns:onChunk",
            "urn:utopia:ns:shape",
            "urn:utopia:ns:reference",
            "urn:utopia:ns:granularity",
            "urn:utopia:ns:grade",
            "urn:utopia:ns:resolvedFrom",
            "urn:utopia:ns:resolvedFromPrecision",
            "urn:utopia:ns:resolvedTo",
            "urn:utopia:ns:resolvedToPrecision",
            "urn:utopia:ns:resolvedAt",
            "http://www.w3.org/ns/prov#generatedAtTime",
        ],
        "derived" => &[
            "http://www.w3.org/1999/02/22-rdf-syntax-ns#type",
            "http://www.w3.org/1999/02/22-rdf-syntax-ns#subject",
            "http://www.w3.org/1999/02/22-rdf-syntax-ns#predicate",
            "http://www.w3.org/1999/02/22-rdf-syntax-ns#object",
            "urn:utopia:ns:derived",
            "urn:utopia:ns:unit",
            "https://schema.org/validFrom",
            "urn:utopia:ns:validFromPrecision",
            "https://schema.org/validThrough",
            "urn:utopia:ns:validThroughPrecision",
            "urn:utopia:ns:endedUnknown",
            "http://www.w3.org/ns/prov#generatedAtTime",
            "http://www.w3.org/ns/prov#invalidatedAtTime",
            "urn:utopia:ns:confidence",
            "http://www.w3.org/ns/prov#wasGeneratedBy",
            "http://www.w3.org/ns/prov#used",
            "urn:utopia:ns:premise",
        ],
        "premise" => &[
            "http://www.w3.org/1999/02/22-rdf-syntax-ns#type",
            "urn:utopia:ns:seq",
            "http://www.w3.org/ns/prov#used",
        ],
        "class" => &[
            "http://www.w3.org/1999/02/22-rdf-syntax-ns#type",
            "http://www.w3.org/2000/01/rdf-schema#label",
            "http://www.w3.org/2000/01/rdf-schema#comment",
            "urn:utopia:ns:builtin",
            "urn:utopia:ns:updatedAt",
            "http://www.w3.org/2000/01/rdf-schema#subClassOf",
            "urn:utopia:ns:primaryType",
            "http://www.w3.org/2002/07/owl#disjointWith",
        ],
        "relation" => &[
            "http://www.w3.org/1999/02/22-rdf-syntax-ns#type",
            "http://www.w3.org/2000/01/rdf-schema#label",
            "http://www.w3.org/2000/01/rdf-schema#comment",
            "urn:utopia:ns:temporal",
            "urn:utopia:ns:builtin",
            "urn:utopia:ns:updatedAt",
            "http://www.w3.org/2002/07/owl#inverseOf",
            "http://www.w3.org/2000/01/rdf-schema#subPropertyOf",
            "urn:utopia:ns:allowedQualifier",
            "http://www.w3.org/2000/01/rdf-schema#domain",
            "http://www.w3.org/2000/01/rdf-schema#range",
            "urn:utopia:ns:datatype",
            "urn:utopia:ns:unit",
        ],
        "rule" => &[
            "http://www.w3.org/1999/02/22-rdf-syntax-ns#type",
            "http://www.w3.org/2000/01/rdf-schema#label",
            "urn:utopia:ns:ruleKind",
            "urn:utopia:ns:onPredicate",
        ],
        "arule" => &[
            "http://www.w3.org/1999/02/22-rdf-syntax-ns#type",
            "http://www.w3.org/2000/01/rdf-schema#label",
            "urn:utopia:ns:ruleKind",
            "http://www.w3.org/2000/01/rdf-schema#comment",
            "urn:utopia:ns:conclusion",
            "urn:utopia:ns:subjectType",
            "urn:utopia:ns:concludesType",
            "urn:utopia:ns:concludesPredicate",
            "urn:utopia:ns:concludesValue",
            "urn:utopia:ns:concludeExpr",
            "urn:utopia:ns:readsPredicate",
            "urn:utopia:ns:condition",
            "urn:utopia:ns:disabled",
        ],
        "condition" => &[
            "http://www.w3.org/1999/02/22-rdf-syntax-ns#type",
            "urn:utopia:ns:recordId",
            "urn:utopia:ns:groupSeq",
            "urn:utopia:ns:seq",
            "urn:utopia:ns:onPredicate",
            "urn:utopia:ns:op",
            "urn:utopia:ns:operand",
            "urn:utopia:ns:readsPredicate",
        ],
        "document" => &[
            "http://www.w3.org/1999/02/22-rdf-syntax-ns#type",
            "http://www.w3.org/2000/01/rdf-schema#label",
            "urn:utopia:ns:sha256",
            "https://schema.org/encodingFormat",
            "urn:utopia:ns:sizeBytes",
            "urn:utopia:ns:docTimeSource",
            "urn:utopia:ns:tag",
            "urn:utopia:ns:externalKey",
            "https://schema.org/datePublished",
            "http://www.w3.org/ns/prov#generatedAtTime",
            "http://www.w3.org/ns/prov#invalidatedAtTime",
            "urn:utopia:ns:purgedAt",
            "urn:utopia:ns:readerNeeded",
            "urn:utopia:ns:timeContext",
            "urn:utopia:ns:timeContextAt",
        ],
        "chunk" => &[
            "http://www.w3.org/1999/02/22-rdf-syntax-ns#type",
            "https://schema.org/isPartOf",
            "https://schema.org/position",
            "urn:utopia:ns:heading",
            "urn:utopia:ns:charStart",
            "urn:utopia:ns:charEnd",
            "urn:utopia:ns:docVersion",
            "urn:utopia:ns:ofVersion",
            "urn:utopia:ns:origin",
            "urn:utopia:ns:originModel",
            "urn:utopia:ns:anchor",
            "http://www.w3.org/ns/prov#generatedAtTime",
            "urn:utopia:ns:extractedAt",
            "http://www.w3.org/ns/prov#invalidatedAtTime",
        ],
        "evidence" => &[
            "http://www.w3.org/1999/02/22-rdf-syntax-ns#type",
            "urn:utopia:ns:onStatement",
            "urn:utopia:ns:fromChunk",
            "urn:utopia:ns:quote",
            "urn:utopia:ns:quoteStart",
            "urn:utopia:ns:quoteEnd",
            "http://www.w3.org/ns/prov#wasDerivedFrom",
            "urn:utopia:ns:docVersion",
            "urn:utopia:ns:ofVersion",
            "urn:utopia:ns:proposedPredicate",
        ],
        "docversion" => &[
            "http://www.w3.org/1999/02/22-rdf-syntax-ns#type",
            "urn:utopia:ns:recordId",
            "http://www.w3.org/ns/prov#wasRevisionOf",
            "urn:utopia:ns:version",
            "urn:utopia:ns:sha256",
            "urn:utopia:ns:sizeBytes",
            "http://www.w3.org/ns/prov#generatedAtTime",
        ],
        _ => panic!("unknown node kind {kind}"),
    }
}

fn matrix(kind: &str, rel_iris: &[NamedNode]) -> BTreeSet<NamedNode> {
    let mut set: BTreeSet<NamedNode> = fixed_preds(kind).iter().map(|p| nn2(p)).collect();
    if matches!(kind, "entity" | "fact") {
        set.extend(rel_iris.iter().cloned());
    }
    set
}

#[derive(Default)]
struct Expected {
    triples: HashSet<(NamedOrBlankNode, NamedNode, Term)>,
    cells: usize,
    non_empty: HashSet<(String, String)>,
    empty: HashSet<(String, String)>,
    multi: HashSet<(String, String)>,
}

impl Expected {
    fn node(
        &mut self,
        kind: &str,
        subject: impl Into<NamedOrBlankNode>,
        cells: Vec<(NamedNode, Vec<Term>)>,
        rel_iris: &[NamedNode],
    ) {
        let subject: NamedOrBlankNode = subject.into();
        let want = matrix(kind, rel_iris);
        let got: BTreeSet<NamedNode> = cells.iter().map(|c| c.0.clone()).collect();
        assert_eq!(
            want, got,
            "{kind} {subject}: registered cells must cover the declared matrix"
        );
        for (p, terms) in cells {
            self.cells += 1;
            let key = if matches!(kind, "entity" | "fact") && rel_iris.contains(&p) {
                "*rel".to_string()
            } else {
                p.as_str().to_string()
            };
            if terms.is_empty() {
                self.empty.insert((kind.to_string(), key));
            } else {
                if terms.len() > 1 {
                    self.multi.insert((kind.to_string(), key.clone()));
                }
                self.non_empty.insert((kind.to_string(), key));
            }
            for o in terms {
                assert!(
                    self.triples.insert((subject.clone(), p.clone(), o)),
                    "two cells produced the same expected triple ({subject} {p})"
                );
            }
        }
    }
}

fn rel_iri(r: &ExportRelation) -> NamedNode {
    r.iri
        .as_deref()
        .and_then(|i| NamedNode::new(i).ok())
        .unwrap_or_else(|| mint("relation", &r.key))
}

fn class_iri(c: &ExportClass) -> NamedNode {
    c.iri
        .as_deref()
        .and_then(|i| NamedNode::new(i).ok())
        .unwrap_or_else(|| mint("class", &c.key))
}

fn expected(fx: &Fx) -> Expected {
    let rel: HashMap<Uuid, &ExportRelation> =
        fx.relations.iter().map(|r| (r.id, r)).collect();
    let cls: HashMap<Uuid, &ExportClass> = fx.classes.iter().map(|c| (c.id, c)).collect();
    let rel_iris: Vec<NamedNode> = fx.relations.iter().map(rel_iri).collect();
    let rel_dt = |id: Uuid| rel.get(&id).and_then(|r| r.datatype.as_deref());
    let dv_keys: HashSet<(Uuid, i32)> = fx
        .docversions
        .iter()
        .map(|v| (v.document_id, v.version))
        .collect();
    let now = now();
    let mut x = Expected::default();

    let mut live: HashMap<(Uuid, Uuid), HashSet<Term>> = HashMap::new();
    for f in &fx.facts {
        let held = f.invalidated_at.is_none();
        let holds =
            f.holds_from.is_some_and(|t| instant(t) <= instant(now))
                    && f.holds_to.is_none_or(|t| instant(t) > instant(now));
        let obj = match (f.object_id, &f.object_value) {
            (Some(o), _) => Some(mint("entity", &o.to_string()).into()),
            (None, Some(v)) => Some(t_value(v, f.predicate_id.and_then(|p| rel_dt(p)))),
            _ => None,
        };
        if held && holds {
            if let (Some(p), Some(o)) = (f.predicate_id, obj) {
                live.entry((f.subject_id, p)).or_default().insert(o);
            }
        }
    }

    for e in &fx.entities {
        let s = mint("entity", &e.id.to_string());
        let mut cells = vec![
            (
                nn2("http://www.w3.org/2000/01/rdf-schema#label"),
                vec![t_str(e.canonical_name.clone())],
            ),
            (
                nn2("http://www.w3.org/1999/02/22-rdf-syntax-ns#type"),
                e.type_id
                    .map(|t| t_iri_of(class_iri(cls[&t])))
                    .into_iter()
                    .collect(),
            ),
            (
                nn2("http://www.w3.org/ns/prov#generatedAtTime"),
                vec![t_dt(e.created_at)],
            ),
            (
                nn2("urn:utopia:ns:typeSource"),
                vec![t_str(e.type_source.clone())],
            ),
            (
                nn2("urn:utopia:ns:typeResolvedAt"),
                e.type_resolved_at.map(t_dt).into_iter().collect(),
            ),
            (
                nn2("urn:utopia:ns:proposedType"),
                e.proposed_type.as_deref().map(t_str).into_iter().collect(),
            ),
            (
                nn2("urn:utopia:ns:specificType"),
                e.specific_type.as_deref().map(t_str).into_iter().collect(),
            ),
            (
                nn2("http://www.w3.org/2000/01/rdf-schema#comment"),
                e.description.as_deref().map(t_str).into_iter().collect(),
            ),
        ];
        for (rid, r) in &rel {
            cells.push((
                rel_iri(r),
                live.get(&(e.id, *rid))
                    .cloned()
                    .unwrap_or_default()
                    .into_iter()
                    .collect(),
            ));
        }
        x.node("entity", s, cells, &rel_iris);
    }

    for f in &fx.facts {
        let s = mint("fact", &f.id.to_string());
        let obj: Vec<Term> = match (f.object_id, &f.object_value) {
            (Some(o), _) => vec![mint("entity", &o.to_string()).into()],
            (None, Some(v)) => {
                vec![t_value(v, f.predicate_id.and_then(|p| rel_dt(p)))]
            }
            _ => vec![],
        };
        let mut cells = vec![
            (nn2("http://www.w3.org/1999/02/22-rdf-syntax-ns#type"), {
                let mut ts = vec![t_iri_of(nn2(
                    "http://www.w3.org/1999/02/22-rdf-syntax-ns#Statement",
                ))];
                if f.layer == "open" {
                    ts.push(t_iri_of(nn2("urn:utopia:ns:OpenStatement")));
                }
                ts
            }),
            (
                nn2("http://www.w3.org/2000/01/rdf-schema#label"),
                if f.layer == "open" {
                    f.phrase.as_deref().map(t_str).into_iter().collect()
                } else {
                    vec![]
                },
            ),
            (
                nn2("urn:utopia:ns:statementLayer"),
                vec![t_str(f.layer.clone())],
            ),
            (
                nn2("urn:utopia:ns:fromStatement"),
                f.source_statements
                    .iter()
                    .map(|s| t_iri_of(mint("fact", &s.to_string())))
                    .collect(),
            ),
            (
                nn2("http://www.w3.org/1999/02/22-rdf-syntax-ns#subject"),
                vec![t_iri_of(mint("entity", &f.subject_id.to_string()))],
            ),
            (
                nn2("http://www.w3.org/1999/02/22-rdf-syntax-ns#predicate"),
                f.predicate_id
                    .map(|p| t_iri_of(rel_iri(rel[&p])))
                    .into_iter()
                    .collect(),
            ),
            (
                nn2("http://www.w3.org/1999/02/22-rdf-syntax-ns#object"),
                obj,
            ),
            (
                nn2("urn:utopia:ns:supersedes"),
                f.supersedes
                    .map(|o| t_iri_of(mint("fact", &o.to_string())))
                    .into_iter()
                    .collect(),
            ),
            (
                nn2("urn:utopia:ns:proposedPredicate"),
                if f.predicate_id.is_none() {
                    f.surface_predicate
                        .as_deref()
                        .map(t_str)
                        .into_iter()
                        .collect()
                } else {
                    vec![]
                },
            ),
            (
                nn2("urn:utopia:ns:relativeValue"),
                if f.object_value
                    .as_ref()
                    .is_some_and(|v| value_of(v).get("relative") == Some(&serde_json::Value::Bool(true)))
                {
                    vec![t_flag()]
                } else {
                    vec![]
                },
            ),
            (
                nn2("urn:utopia:ns:unit"),
                f.object_value
                    .as_ref()
                    .and_then(|v| value_of(v).get("unit").and_then(|u| u.as_str()).map(t_str))
                    .into_iter()
                    .collect(),
            ),
            (
                nn2("https://schema.org/validFrom"),
                f.valid_from
                    .map(|t| t_world(t, f.valid_from_precision.as_deref()))
                    .into_iter()
                    .collect(),
            ),
            (
                nn2("urn:utopia:ns:validFromPrecision"),
                f.valid_from
                    .and_then(|_| f.valid_from_precision.as_deref())
                    .filter(|p| matches!(*p, "hour" | "minute" | "second"))
                    .map(t_str)
                    .into_iter()
                    .collect(),
            ),
            (
                nn2("urn:utopia:ns:validFromGrade"),
                f.valid_from_grade
                    .as_deref()
                    .map(t_str)
                    .into_iter()
                    .collect(),
            ),
            (
                nn2("https://schema.org/validThrough"),
                f.valid_to
                    .map(|t| t_world(t, f.valid_to_precision.as_deref()))
                    .into_iter()
                    .collect(),
            ),
            (
                nn2("urn:utopia:ns:validThroughPrecision"),
                f.valid_to
                    .and_then(|_| f.valid_to_precision.as_deref())
                    .filter(|p| matches!(*p, "hour" | "minute" | "second"))
                    .map(t_str)
                    .into_iter()
                    .collect(),
            ),
            (
                nn2("urn:utopia:ns:endedUnknown"),
                if f.valid_to.is_none()
                    && f.valid_to_precision.as_deref() == Some("unknown")
                {
                    vec![t_flag()]
                } else {
                    vec![]
                },
            ),
            (
                nn2("urn:utopia:ns:attestedFrom"),
                vec![t_dt(f.attested_from)],
            ),
            (
                nn2("urn:utopia:ns:attestedTo"),
                f.attested_to.map(t_dt).into_iter().collect(),
            ),
            (
                nn2("urn:utopia:ns:endDerived"),
                if f.end_derived {
                    vec![t_flag()]
                } else {
                    vec![]
                },
            ),
            (
                nn2("urn:utopia:ns:ruleDerived"),
                if f.rule_derived {
                    vec![t_flag()]
                } else {
                    vec![]
                },
            ),
            (
                nn2("http://www.w3.org/ns/prov#generatedAtTime"),
                vec![t_dt(f.recorded_at)],
            ),
            (
                nn2("http://www.w3.org/ns/prov#invalidatedAtTime"),
                f.invalidated_at.map(t_dt).into_iter().collect(),
            ),
            (nn2("urn:utopia:ns:confidence"), vec![t_dec(&f.confidence)]),
            (
                nn2("http://www.w3.org/ns/prov#wasDerivedFrom"),
                f.documents
                    .iter()
                    .map(|d| t_iri_of(mint("document", &d.to_string())))
                    .collect(),
            ),
            (
                nn2("urn:utopia:ns:quote"),
                f.quotes.iter().map(|q| t_str(q.clone())).collect(),
            ),
            (
                nn2("urn:utopia:ns:evidenceOrigin"),
                f.quote_origins.iter().map(|o| t_str(o.clone())).collect(),
            ),
            (
                nn2("urn:utopia:ns:statementQualifier"),
                f.statement_qualifiers
                    .iter()
                    .enumerate()
                    .map(|(i, q)| {
                        oxrdf::BlankNode::new(format!("sq-{}-{i}", q.fact_id.to_string()))
                            .unwrap()
                            .into()
                    })
                    .collect(),
            ),
            (
                nn2("urn:utopia:ns:timeMention"),
                f.time_mentions
                    .iter()
                    .map(|m| t_iri_of(mint("timemention", &m.id.to_string())))
                    .collect(),
            ),
        ];
        for (rid, r) in &rel {
            let terms: Vec<Term> = f
                .qualifiers
                .iter()
                .filter(|q| q.qualifier_type_id == *rid)
                .filter_map(|q| {
                    if let Some(v) = &q.value {
                        Some(t_value(v, rel_dt(q.qualifier_type_id)))
                    } else {
                        q.entity_id.map(|e| mint("entity", &e.to_string()).into())
                    }
                })
                .collect();
            cells.push((rel_iri(r), terms));
        }
        x.node("fact", s, cells, &rel_iris);
        for (i, q) in f.statement_qualifiers.iter().enumerate() {
            let qn = oxrdf::BlankNode::new(format!("sq-{}-{i}", q.fact_id.to_string())).unwrap();
            x.node(
                "squalifier",
                NamedOrBlankNode::from(qn),
                vec![
                    (
                        nn2("http://www.w3.org/1999/02/22-rdf-syntax-ns#type"),
                        vec![t_iri_of(nn2("urn:utopia:ns:StatementQualifier"))],
                    ),
                    (nn2("urn:utopia:ns:role"), vec![t_str(q.role.clone())]),
                    (
                        nn2("urn:utopia:ns:qualifierValue"),
                        q.value
                            .as_ref()
                            .map(|v| t_str(value_of(v).to_string()))
                            .into_iter()
                            .collect(),
                    ),
                    (
                        nn2("http://www.w3.org/ns/prov#value"),
                        q.entity_id
                            .map(|e| t_iri_of(mint("entity", &e.to_string())))
                            .into_iter()
                            .collect(),
                    ),
                ],
                &rel_iris,
            );
        }
        for m in &f.time_mentions {
            x.node(
                "timemention",
                mint("timemention", &m.id.to_string()),
                vec![
                    (
                        nn2("http://www.w3.org/1999/02/22-rdf-syntax-ns#type"),
                        vec![t_iri_of(nn2("urn:utopia:ns:TimeMention"))],
                    ),
                    (nn2("urn:utopia:ns:role"), vec![t_str(m.role.clone())]),
                    (nn2("urn:utopia:ns:text"), vec![t_str(m.text.clone())]),
                    (
                        nn2("urn:utopia:ns:charStart"),
                        vec![t_int(m.char_start as i64)],
                    ),
                    (
                        nn2("urn:utopia:ns:onChunk"),
                        vec![t_iri_of(mint("chunk", &m.chunk_id.to_string()))],
                    ),
                    (
                        nn2("urn:utopia:ns:shape"),
                        m.shape.as_deref().map(t_str).into_iter().collect(),
                    ),
                    (
                        nn2("urn:utopia:ns:reference"),
                        m.reference
                            .as_ref()
                            .map(|r| t_str(value_of(r).to_string()))
                            .into_iter()
                            .collect(),
                    ),
                    (
                        nn2("urn:utopia:ns:granularity"),
                        m.granularity.as_deref().map(t_str).into_iter().collect(),
                    ),
                    (
                        nn2("urn:utopia:ns:grade"),
                        m.grade.as_deref().map(t_str).into_iter().collect(),
                    ),
                    (
                        nn2("urn:utopia:ns:resolvedFrom"),
                        m.resolved_from
                            .map(|t| t_world(t, m.resolved_from_precision.as_deref()))
                            .into_iter()
                            .collect(),
                    ),
                    (
                        nn2("urn:utopia:ns:resolvedFromPrecision"),
                        m.resolved_from_precision
                            .as_deref()
                            .map(t_str)
                            .into_iter()
                            .collect(),
                    ),
                    (
                        nn2("urn:utopia:ns:resolvedTo"),
                        m.resolved_to
                            .map(|t| t_world(t, m.resolved_to_precision.as_deref()))
                            .into_iter()
                            .collect(),
                    ),
                    (
                        nn2("urn:utopia:ns:resolvedToPrecision"),
                        m.resolved_to_precision
                            .as_deref()
                            .map(t_str)
                            .into_iter()
                            .collect(),
                    ),
                    (
                        nn2("urn:utopia:ns:resolvedAt"),
                        m.resolved_at.map(t_dt).into_iter().collect(),
                    ),
                    (
                        nn2("http://www.w3.org/ns/prov#generatedAtTime"),
                        vec![t_dt(m.recorded_at)],
                    ),
                ],
                &rel_iris,
            );
        }
    }

    for d in &fx.derived {
        let s = mint("derived", &d.id.to_string());
        let obj: Vec<Term> = match (d.object_id, &d.object_value) {
            (Some(o), _) => vec![mint("entity", &o.to_string()).into()],
            (None, Some(v)) => vec![t_value(v, rel_dt(d.predicate_id))],
            _ => vec![],
        };
        let gen = d
            .rule_id
            .map(|r| mint("rule", &r.to_string()))
            .unwrap_or_else(|| mint("arule", &d.attribute_rule_id.unwrap().to_string()));
        x.node(
            "derived",
            s,
            vec![
                (
                    nn2("http://www.w3.org/1999/02/22-rdf-syntax-ns#type"),
                    vec![t_iri_of(nn2(
                        "http://www.w3.org/1999/02/22-rdf-syntax-ns#Statement",
                    ))],
                ),
                (
                    nn2("http://www.w3.org/1999/02/22-rdf-syntax-ns#subject"),
                    vec![t_iri_of(mint("entity", &d.subject_id.to_string()))],
                ),
                (
                    nn2("http://www.w3.org/1999/02/22-rdf-syntax-ns#predicate"),
                    vec![t_iri_of(rel_iri(rel[&d.predicate_id]))],
                ),
                (
                    nn2("http://www.w3.org/1999/02/22-rdf-syntax-ns#object"),
                    obj,
                ),
                (nn2("urn:utopia:ns:derived"), vec![t_flag()]),
                (
                    nn2("urn:utopia:ns:unit"),
                    d.object_value
                        .as_ref()
                        .and_then(|v| value_of(v).get("unit").and_then(|u| u.as_str()).map(t_str))
                        .into_iter()
                        .collect(),
                ),
                (
                    nn2("https://schema.org/validFrom"),
                    d.valid_from
                        .map(|t| t_world(t, d.valid_from_precision.as_deref()))
                        .into_iter()
                        .collect(),
                ),
                (
                    nn2("urn:utopia:ns:validFromPrecision"),
                    d.valid_from
                        .and_then(|_| d.valid_from_precision.as_deref())
                        .filter(|p| matches!(*p, "hour" | "minute" | "second"))
                        .map(t_str)
                        .into_iter()
                        .collect(),
                ),
                (
                    nn2("https://schema.org/validThrough"),
                    d.valid_to
                        .map(|t| t_world(t, d.valid_to_precision.as_deref()))
                        .into_iter()
                        .collect(),
                ),
                (
                    nn2("urn:utopia:ns:validThroughPrecision"),
                    d.valid_to
                        .and_then(|_| d.valid_to_precision.as_deref())
                        .filter(|p| matches!(*p, "hour" | "minute" | "second"))
                        .map(t_str)
                        .into_iter()
                        .collect(),
                ),
                (
                    nn2("urn:utopia:ns:endedUnknown"),
                    if d.valid_to.is_none()
                        && d.valid_to_precision.as_deref() == Some("unknown")
                    {
                        vec![t_flag()]
                    } else {
                        vec![]
                    },
                ),
                (
                    nn2("http://www.w3.org/ns/prov#generatedAtTime"),
                    vec![t_dt(d.derived_at)],
                ),
                (
                    nn2("http://www.w3.org/ns/prov#invalidatedAtTime"),
                    d.invalidated_at.map(t_dt).into_iter().collect(),
                ),
                (nn2("urn:utopia:ns:confidence"), vec![t_dec(&d.confidence)]),
                (
                    nn2("http://www.w3.org/ns/prov#wasGeneratedBy"),
                    vec![t_iri_of(gen)],
                ),
                (
                    nn2("http://www.w3.org/ns/prov#used"),
                    d.premises
                        .iter()
                        .map(|p| t_iri_of(premise_target(p)))
                        .collect(),
                ),
                (
                    nn2("urn:utopia:ns:premise"),
                    d.premises
                        .iter()
                        .map(|p| t_iri_of(mint("premise", &format!("{}:{}", d.id.to_string(), p.seq))))
                        .collect(),
                ),
            ],
            &rel_iris,
        );
        for p in &d.premises {
            x.node(
                "premise",
                mint("premise", &format!("{}:{}", d.id.to_string(), p.seq)),
                vec![
                    (
                        nn2("http://www.w3.org/1999/02/22-rdf-syntax-ns#type"),
                        vec![t_iri_of(nn2("urn:utopia:ns:Premise"))],
                    ),
                    (nn2("urn:utopia:ns:seq"), vec![t_int(p.seq as i64)]),
                    (
                        nn2("http://www.w3.org/ns/prov#used"),
                        vec![t_iri_of(premise_target(p))],
                    ),
                ],
                &rel_iris,
            );
        }
    }

    for c in &fx.classes {
        x.node(
            "class",
            class_iri(c),
            vec![
                (
                    nn2("http://www.w3.org/1999/02/22-rdf-syntax-ns#type"),
                    vec![t_iri_of(nn2("http://www.w3.org/2002/07/owl#Class"))],
                ),
                (
                    nn2("http://www.w3.org/2000/01/rdf-schema#label"),
                    vec![t_str(c.label.clone())],
                ),
                (
                    nn2("http://www.w3.org/2000/01/rdf-schema#comment"),
                    if c.description.is_empty() {
                        vec![]
                    } else {
                        vec![t_str(c.description.clone())]
                    },
                ),
                (
                    nn2("urn:utopia:ns:builtin"),
                    if c.builtin { vec![t_flag()] } else { vec![] },
                ),
                (nn2("urn:utopia:ns:updatedAt"), vec![t_dt(c.updated_at)]),
                (
                    nn2("http://www.w3.org/2000/01/rdf-schema#subClassOf"),
                    c.parents
                        .iter()
                        .map(|p| t_iri_of(class_iri(cls[p])))
                        .collect(),
                ),
                (
                    nn2("urn:utopia:ns:primaryType"),
                    c.primary_parents
                        .iter()
                        .map(|p| t_iri_of(class_iri(cls[p])))
                        .collect(),
                ),
                (
                    nn2("http://www.w3.org/2002/07/owl#disjointWith"),
                    c.disjoint
                        .iter()
                        .map(|p| t_iri_of(class_iri(cls[p])))
                        .collect(),
                ),
            ],
            &rel_iris,
        );
    }

    for r in &fx.relations {
        let mut types = vec![t_iri_of(nn2(if r.kind == "attribute" {
            "http://www.w3.org/2002/07/owl#DatatypeProperty"
        } else {
            "http://www.w3.org/2002/07/owl#ObjectProperty"
        }))];
        for (on, t) in [
            (r.functional, "FunctionalProperty"),
            (r.inverse_functional, "InverseFunctionalProperty"),
            (r.is_transitive, "TransitiveProperty"),
            (r.is_symmetric, "SymmetricProperty"),
            (r.is_asymmetric, "AsymmetricProperty"),
            (r.is_irreflexive, "IrreflexiveProperty"),
        ] {
            if on {
                types.push(t_iri_of(nn2(&format!("http://www.w3.org/2002/07/owl#{t}"))));
            }
        }
        x.node(
            "relation",
            rel_iri(r),
            vec![
                (
                    nn2("http://www.w3.org/1999/02/22-rdf-syntax-ns#type"),
                    types,
                ),
                (
                    nn2("http://www.w3.org/2000/01/rdf-schema#label"),
                    vec![t_str(r.label.clone())],
                ),
                (
                    nn2("http://www.w3.org/2000/01/rdf-schema#comment"),
                    if r.description.is_empty() {
                        vec![]
                    } else {
                        vec![t_str(r.description.clone())]
                    },
                ),
                (
                    nn2("urn:utopia:ns:temporal"),
                    if r.temporal == "state" {
                        vec![]
                    } else {
                        vec![t_str(r.temporal.clone())]
                    },
                ),
                (
                    nn2("urn:utopia:ns:builtin"),
                    if r.builtin { vec![t_flag()] } else { vec![] },
                ),
                (nn2("urn:utopia:ns:updatedAt"), vec![t_dt(r.updated_at)]),
                (
                    nn2("http://www.w3.org/2002/07/owl#inverseOf"),
                    r.inverse_of
                        .map(|i| t_iri_of(rel_iri(rel[&i])))
                        .into_iter()
                        .collect(),
                ),
                (
                    nn2("http://www.w3.org/2000/01/rdf-schema#subPropertyOf"),
                    r.sub_property_of
                        .map(|i| t_iri_of(rel_iri(rel[&i])))
                        .into_iter()
                        .collect(),
                ),
                (
                    nn2("urn:utopia:ns:allowedQualifier"),
                    r.qualifiers
                        .iter()
                        .map(|q| t_iri_of(rel_iri(rel[q])))
                        .collect(),
                ),
                (
                    nn2("http://www.w3.org/2000/01/rdf-schema#domain"),
                    r.domains
                        .iter()
                        .map(|d| t_iri_of(class_iri(cls[d])))
                        .collect(),
                ),
                (
                    nn2("http://www.w3.org/2000/01/rdf-schema#range"),
                    r.ranges
                        .iter()
                        .map(|d| t_iri_of(class_iri(cls[d])))
                        .collect(),
                ),
                (
                    nn2("urn:utopia:ns:datatype"),
                    r.datatype.as_deref().map(t_str).into_iter().collect(),
                ),
                (
                    nn2("urn:utopia:ns:unit"),
                    r.unit.as_deref().map(t_str).into_iter().collect(),
                ),
            ],
            &rel_iris,
        );
    }

    for r in &fx.rules {
        x.node(
            "rule",
            mint("rule", &r.id.to_string()),
            vec![
                (
                    nn2("http://www.w3.org/1999/02/22-rdf-syntax-ns#type"),
                    vec![t_iri_of(nn2("http://www.w3.org/ns/prov#Activity"))],
                ),
                (
                    nn2("http://www.w3.org/2000/01/rdf-schema#label"),
                    vec![t_str(r.kind.clone())],
                ),
                (nn2("urn:utopia:ns:ruleKind"), vec![t_str(r.kind.clone())]),
                (
                    nn2("urn:utopia:ns:onPredicate"),
                    vec![t_iri_of(rel_iri(rel[&r.predicate_id]))],
                ),
            ],
            &rel_iris,
        );
    }

    for r in &fx.arules {
        let s = mint("arule", &r.id.to_string());
        x.node(
            "arule",
            s.clone(),
            vec![
                (
                    nn2("http://www.w3.org/1999/02/22-rdf-syntax-ns#type"),
                    vec![t_iri_of(nn2("http://www.w3.org/ns/prov#Activity"))],
                ),
                (
                    nn2("http://www.w3.org/2000/01/rdf-schema#label"),
                    vec![t_str(r.name.clone())],
                ),
                (nn2("urn:utopia:ns:ruleKind"), vec![t_str("business")]),
                (
                    nn2("http://www.w3.org/2000/01/rdf-schema#comment"),
                    if r.description.is_empty() {
                        vec![]
                    } else {
                        vec![t_str(r.description.clone())]
                    },
                ),
                (
                    nn2("urn:utopia:ns:conclusion"),
                    vec![t_str(r.conclusion.clone())],
                ),
                (
                    nn2("urn:utopia:ns:subjectType"),
                    vec![t_iri_of(class_iri(cls[&r.subject_type_id]))],
                ),
                (
                    nn2("urn:utopia:ns:concludesType"),
                    r.conclude_type_id
                        .map(|t| t_iri_of(class_iri(cls[&t])))
                        .into_iter()
                        .collect(),
                ),
                (
                    nn2("urn:utopia:ns:concludesPredicate"),
                    r.conclude_predicate_id
                        .map(|p| t_iri_of(rel_iri(rel[&p])))
                        .into_iter()
                        .collect(),
                ),
                (
                    nn2("urn:utopia:ns:concludesValue"),
                    r.conclude_predicate_id
                        .and_then(|p| {
                            r.conclude_value.as_ref().map(|v| t_value(v, rel_dt(p)))
                        })
                        .into_iter()
                        .collect(),
                ),
                (
                    nn2("urn:utopia:ns:concludeExpr"),
                    r.conclude_expr
                        .as_ref()
                        .map(|e| t_str(value_of(e).to_string()))
                        .into_iter()
                        .collect(),
                ),
                (
                    nn2("urn:utopia:ns:readsPredicate"),
                    r.conclude_expr
                        .as_ref()
                        .map(|e| {
                            expr_attrs(e)
                                .iter()
                                .map(|u| t_iri_of(rel_iri(rel[&Uuid::from_u128(*u)])))
                                .collect()
                        })
                        .unwrap_or_default(),
                ),
                (
                    nn2("urn:utopia:ns:condition"),
                    r.conditions
                        .iter()
                        .map(|c| {
                            t_iri_of(mint(
                                "condition",
                                &format!("{}:{}:{}", c.rule_id.to_string(), c.group_seq, c.seq),
                            ))
                        })
                        .collect(),
                ),
                (
                    nn2("urn:utopia:ns:disabled"),
                    if r.enabled { vec![] } else { vec![t_flag()] },
                ),
            ],
            &rel_iris,
        );
        for c in &r.conditions {
            x.node(
                "condition",
                mint(
                    "condition",
                    &format!("{}:{}:{}", c.rule_id.to_string(), c.group_seq, c.seq),
                ),
                vec![
                    (
                        nn2("http://www.w3.org/1999/02/22-rdf-syntax-ns#type"),
                        vec![t_iri_of(nn2("urn:utopia:ns:RuleCondition"))],
                    ),
                    (nn2("urn:utopia:ns:recordId"), vec![t_str(c.id.to_string())]),
                    (
                        nn2("urn:utopia:ns:groupSeq"),
                        vec![t_int(c.group_seq as i64)],
                    ),
                    (nn2("urn:utopia:ns:seq"), vec![t_int(c.seq as i64)]),
                    (
                        nn2("urn:utopia:ns:onPredicate"),
                        vec![t_iri_of(rel_iri(rel[&c.predicate_id]))],
                    ),
                    (nn2("urn:utopia:ns:op"), vec![t_str(c.op.clone())]),
                    (
                        nn2("urn:utopia:ns:operand"),
                        c.operand
                            .as_ref()
                            .map(|o| t_str(value_of(o).to_string()))
                            .into_iter()
                            .collect(),
                    ),
                    (
                        nn2("urn:utopia:ns:readsPredicate"),
                        c.operand
                            .as_ref()
                            .filter(|o| o.is_object())
                            .map(|o| {
                                expr_attrs(o)
                                    .iter()
                                    .map(|u| t_iri_of(rel_iri(rel[&Uuid::from_u128(*u)])))
                                    .collect()
                            })
                            .unwrap_or_default(),
                    ),
                ],
                &rel_iris,
            );
        }
    }

    for d in &fx.documents {
        x.node(
            "document",
            mint("document", &d.id.to_string()),
            vec![
                (
                    nn2("http://www.w3.org/1999/02/22-rdf-syntax-ns#type"),
                    vec![t_iri_of(nn2("http://www.w3.org/ns/prov#Entity"))],
                ),
                (
                    nn2("http://www.w3.org/2000/01/rdf-schema#label"),
                    vec![t_str(d.filename.clone())],
                ),
                (nn2("urn:utopia:ns:sha256"), vec![t_str(d.sha256.clone())]),
                (
                    nn2("https://schema.org/encodingFormat"),
                    vec![t_str(d.mime.clone())],
                ),
                (nn2("urn:utopia:ns:sizeBytes"), vec![t_int(d.size_bytes)]),
                (
                    nn2("urn:utopia:ns:docTimeSource"),
                    vec![t_str(d.doc_time_source.clone())],
                ),
                (
                    nn2("urn:utopia:ns:tag"),
                    d.tags.iter().map(|t| t_str(t.clone())).collect(),
                ),
                (
                    nn2("urn:utopia:ns:externalKey"),
                    d.external_key.as_deref().map(t_str).into_iter().collect(),
                ),
                (
                    nn2("https://schema.org/datePublished"),
                    d.doc_time
                        .map(|t| t_world(t, Some("day")))
                        .into_iter()
                        .collect(),
                ),
                (
                    nn2("http://www.w3.org/ns/prov#generatedAtTime"),
                    vec![t_dt(d.created_at)],
                ),
                (
                    nn2("http://www.w3.org/ns/prov#invalidatedAtTime"),
                    d.deleted_at.map(t_dt).into_iter().collect(),
                ),
                (
                    nn2("urn:utopia:ns:purgedAt"),
                    d.purged_at.map(t_dt).into_iter().collect(),
                ),
                (
                    nn2("urn:utopia:ns:readerNeeded"),
                    d.reader_needed.as_deref().map(t_str).into_iter().collect(),
                ),
                (
                    nn2("urn:utopia:ns:timeContext"),
                    d.time_context
                        .as_ref()
                        .map(|t| t_str(value_of(t).to_string()))
                        .into_iter()
                        .collect(),
                ),
                (
                    nn2("urn:utopia:ns:timeContextAt"),
                    d.time_context_at.map(t_dt).into_iter().collect(),
                ),
            ],
            &rel_iris,
        );
    }

    for c in &fx.chunks {
        x.node(
            "chunk",
            mint("chunk", &c.id.to_string()),
            vec![
                (
                    nn2("http://www.w3.org/1999/02/22-rdf-syntax-ns#type"),
                    vec![t_iri_of(nn2("urn:utopia:ns:Chunk"))],
                ),
                (
                    nn2("https://schema.org/isPartOf"),
                    vec![t_iri_of(mint("document", &c.document_id.to_string()))],
                ),
                (
                    nn2("https://schema.org/position"),
                    vec![t_int(c.seq as i64)],
                ),
                (
                    nn2("urn:utopia:ns:heading"),
                    c.heading.as_deref().map(t_str).into_iter().collect(),
                ),
                (
                    nn2("urn:utopia:ns:charStart"),
                    vec![t_int(c.char_start as i64)],
                ),
                (nn2("urn:utopia:ns:charEnd"), vec![t_int(c.char_end as i64)]),
                (
                    nn2("urn:utopia:ns:docVersion"),
                    vec![t_int(c.doc_version as i64)],
                ),
                (
                    nn2("urn:utopia:ns:ofVersion"),
                    if dv_keys.contains(&(c.document_id, c.doc_version)) {
                        vec![t_iri_of(mint(
                            "docversion",
                            &format!("{}:{}", c.document_id.to_string(), c.doc_version),
                        ))]
                    } else {
                        vec![]
                    },
                ),
                (nn2("urn:utopia:ns:origin"), vec![t_str(c.origin.clone())]),
                (
                    nn2("urn:utopia:ns:originModel"),
                    c.origin_model.as_deref().map(t_str).into_iter().collect(),
                ),
                (
                    nn2("urn:utopia:ns:anchor"),
                    c.anchor
                        .as_ref()
                        .map(|a| t_str(value_of(a).to_string()))
                        .into_iter()
                        .collect(),
                ),
                (
                    nn2("http://www.w3.org/ns/prov#generatedAtTime"),
                    vec![t_dt(c.created_at)],
                ),
                (
                    nn2("urn:utopia:ns:extractedAt"),
                    c.extracted_at.map(t_dt).into_iter().collect(),
                ),
                (
                    nn2("http://www.w3.org/ns/prov#invalidatedAtTime"),
                    c.superseded_at.map(t_dt).into_iter().collect(),
                ),
            ],
            &rel_iris,
        );
    }

    for e in &fx.evidence {
        x.node(
            "evidence",
            mint("evidence", &format!("{}:{}", e.fact_id.to_string(), e.chunk_id.to_string())),
            vec![
                (
                    nn2("http://www.w3.org/1999/02/22-rdf-syntax-ns#type"),
                    vec![t_iri_of(nn2("urn:utopia:ns:Evidence"))],
                ),
                (
                    nn2("urn:utopia:ns:onStatement"),
                    vec![t_iri_of(mint("fact", &e.fact_id.to_string()))],
                ),
                (
                    nn2("urn:utopia:ns:fromChunk"),
                    vec![t_iri_of(mint("chunk", &e.chunk_id.to_string()))],
                ),
                (
                    nn2("urn:utopia:ns:quote"),
                    e.quote.as_deref().map(t_str).into_iter().collect(),
                ),
                (
                    nn2("urn:utopia:ns:quoteStart"),
                    e.quote_start.map(|s| t_int(s as i64)).into_iter().collect(),
                ),
                (
                    nn2("urn:utopia:ns:quoteEnd"),
                    e.quote_end.map(|s| t_int(s as i64)).into_iter().collect(),
                ),
                (
                    nn2("http://www.w3.org/ns/prov#wasDerivedFrom"),
                    e.document_id
                        .map(|d| t_iri_of(mint("document", &d.to_string())))
                        .into_iter()
                        .collect(),
                ),
                (
                    nn2("urn:utopia:ns:docVersion"),
                    e.doc_version.map(|v| t_int(v as i64)).into_iter().collect(),
                ),
                (
                    nn2("urn:utopia:ns:ofVersion"),
                    match (e.document_id, e.doc_version) {
                        (Some(d), Some(v)) if dv_keys.contains(&(d, v)) => {
                            vec![t_iri_of(mint("docversion", &format!("{}:{v}", d.to_string())))]
                        }
                        _ => vec![],
                    },
                ),
                (
                    nn2("urn:utopia:ns:proposedPredicate"),
                    e.proposed_predicate
                        .as_deref()
                        .map(t_str)
                        .into_iter()
                        .collect(),
                ),
            ],
            &rel_iris,
        );
    }

    for v in &fx.docversions {
        x.node(
            "docversion",
            mint("docversion", &format!("{}:{}", v.document_id.to_string(), v.version)),
            vec![
                (
                    nn2("http://www.w3.org/1999/02/22-rdf-syntax-ns#type"),
                    vec![t_iri_of(nn2("urn:utopia:ns:DocumentVersion"))],
                ),
                (nn2("urn:utopia:ns:recordId"), vec![t_str(v.id.to_string())]),
                (
                    nn2("http://www.w3.org/ns/prov#wasRevisionOf"),
                    vec![t_iri_of(mint("document", &v.document_id.to_string()))],
                ),
                (nn2("urn:utopia:ns:version"), vec![t_int(v.version as i64)]),
                (nn2("urn:utopia:ns:sha256"), vec![t_str(v.sha256.clone())]),
                (nn2("urn:utopia:ns:sizeBytes"), vec![t_int(v.size_bytes)]),
                (
                    nn2("http://www.w3.org/ns/prov#generatedAtTime"),
                    vec![t_dt(v.ingested_at)],
                ),
            ],
            &rel_iris,
        );
    }
    x
}

fn t_iri_of(n: NamedNode) -> Term {
    n.into()
}

fn premise_target(p: &ExportPremise) -> NamedNode {
    match (p.fact_id, p.derived_id) {
        (Some(f), _) => mint("fact", &f.to_string()),
        (None, Some(d)) => mint("derived", &d.to_string()),
        _ => unreachable!(),
    }
}

struct Fx {
    classes: Vec<ExportClass>,
    relations: Vec<ExportRelation>,
    rules: Vec<ExportRule>,
    arules: Vec<ExportAttributeRule>,
    entities: Vec<ExportEntity>,
    documents: Vec<ExportDocument>,
    docversions: Vec<ExportDocumentVersion>,
    chunks: Vec<ExportChunk>,
    facts: Vec<ExportFact>,
    evidence: Vec<ExportEvidence>,
    derived: Vec<ExportDerived>,
}

fn entity(n: u8, name: &str, type_id: Option<Uuid>) -> ExportEntity {
    ExportEntity {
        id: id(n),
        canonical_name: name.into(),
        type_id,
        type_kb: type_id.map(|_| kb()),
        type_source: "extracted".into(),
        type_resolved_at: None,
        proposed_type: None,
        specific_type: None,
        description: None,
        created_at: at("2026-01-01T00:00:00Z"),
    }
}

impl Fx {
    fn full() -> Self {
        let mut well = class(30, "well", None);
        well.builtin = true;
        well.description = "gas well".into();
        well.parents = vec![id(1)];
        well.primary_parents = vec![id(1)];
        well.disjoint = vec![id(3)];

        let mut spouse = relation(20, "spouse", None, "relation");
        spouse.description = "married to".into();
        spouse.inverse_of = Some(id(21));
        spouse.sub_property_of = Some(id(22));
        spouse.qualifiers = vec![id(4)];
        spouse.domains = vec![id(1)];
        spouse.ranges = vec![id(3)];
        spouse.builtin = true;
        spouse.is_transitive = true;
        spouse.temporal = "event".into();
        let mut eternal = relation(23, "eternal_bond", None, "relation");
        eternal.temporal = "eternal".into();
        eternal.functional = false;
        let mut headcount = relation(4, "headcount", None, "attribute");
        headcount.unit = Some("%".into());

        let rule = ExportRule {
            id: id(8),
            kind: "transitive".into(),
            predicate_id: id(2),
            predicate_kb: Some(kb()),
        };
        let arule = ExportAttributeRule {
            id: id(9),
            name: "Margin rule".into(),
            description: "computes".into(),
            conclusion: "computed".into(),
            subject_type_id: id(1),
            conclude_type_id: None,
            conclude_predicate_id: Some(id(4)),
            conclude_value: Some(j(r#"{"value": 0.42}"#)),
            conclude_expr: Some(j(&format!(
                r#"{{"op": "mul", "l": {{"attr": "{}"}}, "r": {{"const": 2}}}}"#,
                id(4).to_string()
            ))),
            enabled: true,
            conditions: vec![
                ExportRuleCondition {
                    id: id(15),
                    rule_id: id(9),
                    group_seq: 0,
                    seq: 1,
                    predicate_id: id(4),
                    op: "gt".into(),
                    operand: Some(j(&format!(r#"{{"attr": "{}"}}"#, id(4).to_string()))),
                    predicate_kb: Some(kb()),
                },
                ExportRuleCondition {
                    id: id(16),
                    rule_id: id(9),
                    group_seq: 1,
                    seq: 1,
                    predicate_id: id(4),
                    op: "present".into(),
                    operand: None,
                    predicate_kb: Some(kb()),
                },
            ],
            subject_type_kb: Some(kb()),
            conclude_type_kb: None,
            conclude_predicate_kb: Some(kb()),
        };
        let arule_off = ExportAttributeRule {
            id: id(14),
            name: "Off".into(),
            description: String::new(),
            conclusion: "typing".into(),
            subject_type_id: id(1),
            conclude_type_id: Some(id(3)),
            conclude_predicate_id: None,
            conclude_value: None,
            conclude_expr: None,
            enabled: false,
            conditions: vec![],
            subject_type_kb: Some(kb()),
            conclude_type_kb: Some(kb()),
            conclude_predicate_kb: None,
        };

        let mut acme = entity(10, "Acme", Some(id(30)));
        acme.type_source = "human".into();
        acme.type_resolved_at = Some(at("2026-01-02T00:00:00Z"));
        acme.proposed_type = Some("energy major".into());
        acme.specific_type = Some("gas producer".into());
        acme.description = Some("an energy major".into());
        let bob = entity(11, "Bob", None);
        let carol = entity(42, "Carol", None);

        let doc = ExportDocument {
            id: id(12),
            filename: "annual.md".into(),
            external_key: Some("src://acme/annual".into()),
            sha256: "a".repeat(64),
            mime: "text/markdown".into(),
            size_bytes: 42,
            doc_time_source: "document".into(),
            tags: vec!["filing".into(), "annual".into()],
            doc_time: Some(at("2024-03-01T08:00:00Z")),
            created_at: at("2026-01-01T00:00:00Z"),
            deleted_at: None,
            purged_at: None,
            reader_needed: Some("pdf".into()),
            time_context: Some(
                j(r#"{"period": "FY2023", "calendar": "fiscal"}"#),
            ),
            time_context_at: Some(at("2026-01-05T00:00:00Z")),
        };
        let doc_gone = ExportDocument {
            id: id(17),
            filename: "gone.md".into(),
            external_key: None,
            sha256: "b".repeat(64),
            mime: "text/markdown".into(),
            size_bytes: 1,
            doc_time_source: "upload".into(),
            tags: vec![],
            doc_time: None,
            created_at: at("2026-01-01T00:00:00Z"),
            deleted_at: Some(at("2026-04-01T00:00:00Z")),
            purged_at: Some(at("2026-04-02T00:00:00Z")),
            reader_needed: None,
            time_context: None,
            time_context_at: None,
        };

        let version = ExportDocumentVersion {
            id: id(18),
            document_id: id(12),
            version: 2,
            sha256: "deadbeef".into(),
            size_bytes: 4096,
            ingested_at: at("2026-03-01T00:00:00.123456Z"),
            document_kb: Some(kb()),
        };

        let mut c1 = chunk(13);
        c1.document_id = id(12);
        c1.doc_version = 2;
        c1.version_row = true;
        c1.extracted_at = Some(at("2026-03-02T00:00:00Z"));
        c1.origin = "pasted".into();
        c1.origin_model = Some("clip-v2".into());
        c1.anchor = Some(j(r#"{"page": 7}"#));
        let mut c2 = chunk(19);
        c2.document_id = id(12);
        c2.doc_version = 3;
        c2.heading = None;
        c2.superseded_at = Some(at("2026-04-01T00:00:00Z"));

        let mut live = fact(5);
        live.documents = vec![id(12)];
        live.quotes = vec!["joined in 2023".into()];
        live.quote_origins = vec!["pasted".into()];
        live.qualifiers = vec![
            FactQualifier {
                qualifier_type_id: id(4),
                key: "headcount".into(),
                label: "headcount".into(),
                value: Some(j(r#"{"value": 42}"#)),
                entity_id: None,
                entity_name: None,
            },
            FactQualifier {
                qualifier_type_id: id(2),
                key: "works_for".into(),
                label: "works_for".into(),
                value: None,
                entity_id: Some(id(11)),
                entity_name: Some("Bob".into()),
            },
            FactQualifier {
                qualifier_type_id: id(20),
                key: "spouse".into(),
                label: "spouse".into(),
                value: Some(j(r#"{"value": "via introduction"}"#)),
                entity_id: Some(id(11)),
                entity_name: Some("Bob".into()),
            },
        ];
        live.supersedes = Some(id(6));
        live.supersedes_kb = Some(kb());
        live.attested_to = Some(at("2026-03-15T00:00:00Z"));
        live.end_derived = true;
        live.rule_derived = true;
        live.valid_from = Some(at("2023-05-04T10:00:00Z"));
        live.valid_from_precision = Some("hour".into());

        let mut old = fact(6);
        old.invalidated_at = Some(at("2026-03-01T00:00:00Z"));

        let mut attr = fact(7);
        attr.predicate_id = Some(id(4));
        attr.object_id = None;
        attr.object_value = Some(j(r#"{"value": 65, "unit": "%"}"#));

        let mut bare = fact(24);
        bare.predicate_id = None;
        bare.predicate_kb = None;
        bare.surface_predicate = Some("acquired".into());

        let mut bare_val = fact(43);
        bare_val.predicate_id = None;
        bare_val.predicate_kb = None;
        bare_val.object_id = None;
        bare_val.object_kb = None;
        bare_val.object_value = Some(j(r#"{"value": "待复检"}"#));
        bare_val.surface_predicate = Some("状态".into());

        let mut empty_obj = fact(25);
        empty_obj.object_id = None;
        empty_obj.object_value = None;

        let mut future = fact(26);
        future.holds_from = Some(at("2099-01-01T00:00:00Z"));

        let mut closed = fact(27);
        closed.valid_to = Some(at("2024-07-01T00:00:00Z"));
        closed.valid_to_precision = Some("month".into());
        closed.holds_to = Some(at("2024-08-01T00:00:00Z"));

        let mut eternal_f = fact(28);
        eternal_f.predicate_id = Some(id(23));
        eternal_f.holds_from = None;

        let mut undated_end = fact(29);
        undated_end.valid_to_precision = Some("unknown".into());
        undated_end.attested_to = Some(at("2025-03-01T00:00:00Z"));
        undated_end.holds_to = Some(at("2025-03-01T00:00:00Z"));

        let mut year_f = fact(31);
        year_f.subject_id = id(11);
        year_f.valid_from = Some(at("2023-01-01T00:00:00Z"));
        year_f.valid_from_precision = Some("year".into());

        let mut rel_f = fact(35);
        rel_f.subject_id = id(11);
        rel_f.predicate_id = Some(id(4));
        rel_f.object_id = None;
        rel_f.object_value = Some(j(r#"{ "value": "45 days after signing", "relative": true, "unit": "days" }"#));

        let mut closed_sec = fact(36);
        closed_sec.valid_to = Some(at("2024-07-01T12:34:56Z"));
        closed_sec.valid_to_precision = Some("second".into());
        closed_sec.holds_to = Some(at("2024-07-01T12:34:57Z"));

        let mut open = fact(38);
        open.layer = "open".into();
        open.predicate_id = None;
        open.predicate_kb = None;
        open.phrase = Some("joined".into());
        open.surface_predicate = Some("employs".into());
        open.valid_from_grade = Some("B".into());
        open.statement_qualifiers = vec![
            ExportStatementQualifier {
                fact_id: id(38),
                role: "since".into(),
                value: Some(j(r#""2023-04""#)),
                entity_id: None,
                entity_kb: None,
                entity_merged: false,
            },
            ExportStatementQualifier {
                fact_id: id(38),
                role: "witness".into(),
                value: None,
                entity_id: Some(id(11)),
                entity_kb: Some(kb()),
                entity_merged: false,
            },
        ];
        open.time_mentions = vec![
            ExportTimeMention {
                id: id(40),
                kb_id: kb(),
                fact_id: id(38),
                chunk_id: id(13),
                chunk_kb: Some(kb()),
                role: "when".into(),
                text: "去年四月".into(),
                char_start: 12,
                shape: Some("point".into()),
                reference: Some(j(r#"{"kind": "month"}"#)),
                granularity: Some("month".into()),
                resolved_from: Some(at("2023-04-01T00:00:00Z")),
                resolved_from_precision: Some("month".into()),
                resolved_to: Some(at("2023-05-01T00:00:00Z")),
                resolved_to_precision: Some("month".into()),
                resolved_at: Some(at("2026-03-01T00:00:00Z")),
                grade: Some("B".into()),
                recorded_at: at("2026-02-15T00:00:00Z"),
            },
            ExportTimeMention {
                id: id(41),
                kb_id: kb(),
                fact_id: id(38),
                chunk_id: id(13),
                chunk_kb: Some(kb()),
                role: "until".into(),
                text: "前年".into(),
                char_start: 0,
                shape: None,
                reference: None,
                granularity: None,
                resolved_from: None,
                resolved_from_precision: None,
                resolved_to: None,
                resolved_to_precision: None,
                resolved_at: None,
                grade: None,
                recorded_at: at("2026-02-15T00:00:00Z"),
            },
        ];

        let mut typed = fact(39);
        typed.subject_id = id(11);
        typed.object_id = Some(id(42));
        typed.predicate_id = Some(id(2));
        typed.source_statements = vec![id(38)];
        typed.valid_from_grade = Some("A".into());

        let evidence = vec![
            ExportEvidence {
                fact_id: id(5),
                chunk_id: id(13),
                document_id: Some(id(12)),
                doc_version: Some(2),
                version_row: true,
                quote: Some("joined in 2023".into()),
                quote_start: Some(41),
                quote_end: Some(54),
                proposed_predicate: Some("employs".into()),
                chunk_kb: Some(kb()),
                document_kb: Some(kb()),
            },
            ExportEvidence {
                fact_id: id(6),
                chunk_id: id(19),
                document_id: None,
                doc_version: None,
                version_row: false,
                quote: None,
                quote_start: None,
                quote_end: None,
                proposed_predicate: None,
                chunk_kb: Some(kb()),
                document_kb: None,
            },
        ];

        let mut d1 = derived(32);
        d1.rule_id = Some(id(8));
        d1.rule_kb = Some(kb());
        d1.valid_from = Some(at("2024-06-01T10:00:00Z"));
        d1.valid_from_precision = Some("hour".into());
        d1.premises = vec![
            ExportPremise {
                seq: 0,
                fact_id: Some(id(5)),
                derived_id: None,
            },
            ExportPremise {
                seq: 1,
                fact_id: None,
                derived_id: Some(id(33)),
            },
        ];
        let mut d2 = derived(33);
        d2.rule_id = None;
        d2.rule_kb = None;
        d2.attribute_rule_id = Some(id(9));
        d2.attribute_rule_kb = Some(kb());
        d2.object_id = None;
        d2.object_kb = None;
        d2.object_value = Some(j(r#"{"value": 0.95, "unit": "ratio"}"#));
        d2.valid_to = Some(at("2025-01-15T00:00:00Z"));
        d2.valid_to_precision = Some("minute".into());
        d2.premises = vec![];
        let mut d3 = derived(34);
        d3.invalidated_at = Some(at("2026-03-02T00:00:00Z"));
        let mut d4 = derived(37);
        d4.object_id = None;
        d4.object_kb = None;
        d4.object_value = None;
        d4.valid_to = None;
        d4.valid_to_precision = Some("unknown".into());
        d4.premises = vec![];

        Fx {
            classes: vec![
                class(1, "person", Some("https://schema.org/Person")),
                class(3, "team", None),
                well,
            ],
            relations: vec![
                relation(
                    2,
                    "works_for",
                    Some("https://schema.org/worksFor"),
                    "relation",
                ),
                headcount,
                relation(21, "partner", None, "relation"),
                relation(22, "kin", None, "relation"),
                spouse,
                eternal,
            ],
            rules: vec![rule],
            arules: vec![arule, arule_off],
            entities: vec![acme, bob, carol],
            documents: vec![doc, doc_gone],
            docversions: vec![version],
            chunks: vec![c1, c2],
            facts: vec![
                live,
                old,
                attr,
                bare,
                bare_val,
                empty_obj,
                future,
                closed,
                eternal_f,
                undated_end,
                year_f,
                rel_f,
                closed_sec,
                open,
                typed,
            ],
            evidence,
            derived: vec![d1, d2, d3, d4],
        }
    }

    fn emit(&self, format: Format) -> Vec<Quad> {
        let names = Names::new(kb(), None).unwrap();
        let vocab = vocabulary(&names, &self.classes, &self.relations);
        let mut sink = Sink::new(format, SharedBuf::default());
        for c in &self.classes {
            emit_class(&mut sink, &vocab, c).unwrap();
        }
        for r in &self.relations {
            emit_relation(&mut sink, &vocab, r).unwrap();
        }
        for r in &self.rules {
            emit_rule(&mut sink, &names, &vocab, r).unwrap();
        }
        for r in &self.arules {
            emit_attribute_rule(&mut sink, &names, &vocab, r).unwrap();
        }
        for d in &self.documents {
            emit_document(&mut sink, &names, d).unwrap();
        }
        for v in &self.docversions {
            emit_docversion(&mut sink, &names, v).unwrap();
        }
        for c in &self.chunks {
            emit_chunk(&mut sink, &names, c).unwrap();
        }
        for e in &self.entities {
            emit_entity(&mut sink, &names, &vocab, e).unwrap();
        }
        for f in &self.facts {
            emit_fact(&mut sink, &names, &vocab, f, now()).unwrap();
        }
        for e in &self.evidence {
            emit_evidence(&mut sink, &names, e).unwrap();
        }
        for d in &self.derived {
            emit_derived(&mut sink, &names, &vocab, d).unwrap();
        }
        parsed(format, &sink.finish().take())
    }
}

fn to_set(quads: &[Quad]) -> HashSet<Quad> {
    quads.iter().cloned().collect()
}

fn expected_quads(expected: &Expected) -> HashSet<Quad> {
    expected
        .triples
        .iter()
        .map(|(s, p, o)| {
            Quad::new(s.clone(), p.clone(), o.clone(), GraphName::DefaultGraph)
        })
        .collect()
}

#[test]
fn the_whole_export_is_accounted_for() {
    let fx = Fx::full();
    let expected = expected(&fx);
    let expected = expected_quads(&expected);
    for format in [Format::Turtle, Format::JsonLd] {
        let quads = fx.emit(format);
        assert!(
            quads
                .iter()
                .all(|q| q.graph_name == GraphName::DefaultGraph),
            "{format:?}: every emitted quad must sit in the default graph"
        );
        let actual = to_set(&quads);
        assert_eq!(
            quads.len(),
            actual.len(),
            "{format:?}: duplicate quads emitted"
        );
        let missing: Vec<_> = expected.difference(&actual).collect();
        let unexpected: Vec<_> = actual.difference(&expected).collect();
        assert!(
            missing.is_empty() && unexpected.is_empty(),
            "{format:?}: missing={missing:?} unexpected={unexpected:?}"
        );
    }
}

#[test]
fn the_accounting_rejects_unaccounted_terms() {
    let fx = Fx::full();
    let expected = expected_quads(&expected(&fx));
    let actual = to_set(&fx.emit(Format::Turtle));
    let fact5 = nn2("urn:utopia:kb:01a06dc4-f40a-7013-b09f-1b499e2e7441:fact:05050505-0505-0505-0505-050505050505");
    let derived32 = nn2("urn:utopia:kb:01a06dc4-f40a-7013-b09f-1b499e2e7441:derived:20202020-2020-2020-2020-202020202020");
    let entity11 = nn2("urn:utopia:kb:01a06dc4-f40a-7013-b09f-1b499e2e7441:entity:0b0b0b0b-0b0b-0b0b-0b0b-0b0b0b0b0b0b");
    let partner =
        nn2("urn:utopia:kb:01a06dc4-f40a-7013-b09f-1b499e2e7441:relation:partner");

    let additions: Vec<(NamedNode, NamedNode, Term)> = vec![
        (fact5.clone(), nn2("http://www.w3.org/1999/02/22-rdf-syntax-ns#subject"),
         Literal::new_simple_literal("not-an-iri").into()),
        (fact5.clone(), nn2("http://www.w3.org/1999/02/22-rdf-syntax-ns#object"),
         Literal::new_simple_literal("second-object").into()),
        (fact5.clone(), partner.clone(), entity11.clone().into()),
        (derived32.clone(), nn2("urn:utopia:ns:validThroughPrecision"),
         Literal::new_simple_literal("hour").into()),
        (nn2("urn:utopia:kb:01a06dc4-f40a-7013-b09f-1b499e2e7441:arule:09090909-0909-0909-0909-090909090909"),
         nn2("urn:utopia:ns:disabled"),
         Literal::new_typed_literal("false", xsd::BOOLEAN).into()),
        (nn2("urn:utopia:kb:01a06dc4-f40a-7013-b09f-1b499e2e7441:fact:19191919-1919-1919-1919-191919191919"),
         nn2("http://www.w3.org/1999/02/22-rdf-syntax-ns#object"),
         Literal::new_simple_literal("phantom").into()),
        (fact5.clone(), nn2("http://www.w3.org/1999/02/22-rdf-syntax-ns#subject"),
         Term::from(oxrdf::BlankNode::new("mutant").unwrap())),
        (entity11, partner, fact5.clone().into()),
    ];
    for (s, p, o) in additions {
        let mut mutated = actual.clone();
        mutated.insert(Quad::new(s.clone(), p.clone(), o, GraphName::DefaultGraph));
        assert_ne!(
            mutated, expected,
            "unaccounted term must break the ledger: {s} {p}"
        );
    }
    {
        let victim = actual.iter().next().unwrap().clone();
        let mut moved = actual.clone();
        moved.remove(&victim);
        let (vs, vp, vo) = (victim.subject, victim.predicate, victim.object);
        moved.insert(Quad::new(
            vs.clone(),
            vp.clone(),
            vo.clone(),
            nn2("urn:mutant:named-graph"),
        ));
        assert_ne!(moved, expected, "a named-graph move must break the ledger");
        let mut copied = actual.clone();
        copied.insert(Quad::new(vs, vp, vo, nn2("urn:mutant:named-graph")));
        assert_ne!(copied, expected, "a named-graph copy must break the ledger");
    }
    for victim in actual.iter().take(3) {
        let mut mutated = actual.clone();
        mutated.remove(victim);
        assert_ne!(mutated, expected, "a dropped quad must break the ledger");
    }
    assert_eq!(actual.len(), fx.emit(Format::Turtle).len());
}

const CONDITIONAL_CELLS: &[(&str, &[&str])] = &[
    (
        "entity",
        &[
            "http://www.w3.org/1999/02/22-rdf-syntax-ns#type",
            "http://www.w3.org/2000/01/rdf-schema#comment",
            "urn:utopia:ns:typeResolvedAt",
            "urn:utopia:ns:proposedType",
            "urn:utopia:ns:specificType",
            "*rel",
        ],
    ),
    (
        "fact",
        &[
            "http://www.w3.org/1999/02/22-rdf-syntax-ns#type",
            "http://www.w3.org/2000/01/rdf-schema#label",
            "http://www.w3.org/1999/02/22-rdf-syntax-ns#predicate",
            "http://www.w3.org/1999/02/22-rdf-syntax-ns#object",
            "urn:utopia:ns:fromStatement",
            "urn:utopia:ns:supersedes",
            "urn:utopia:ns:proposedPredicate",
            "urn:utopia:ns:relativeValue",
            "urn:utopia:ns:unit",
            "https://schema.org/validFrom",
            "urn:utopia:ns:validFromPrecision",
            "urn:utopia:ns:validFromGrade",
            "https://schema.org/validThrough",
            "urn:utopia:ns:validThroughPrecision",
            "urn:utopia:ns:endedUnknown",
            "urn:utopia:ns:attestedTo",
            "urn:utopia:ns:endDerived",
            "urn:utopia:ns:ruleDerived",
            "http://www.w3.org/ns/prov#invalidatedAtTime",
            "http://www.w3.org/ns/prov#wasDerivedFrom",
            "urn:utopia:ns:quote",
            "urn:utopia:ns:evidenceOrigin",
            "urn:utopia:ns:statementQualifier",
            "urn:utopia:ns:timeMention",
            "*rel",
        ],
    ),
    (
        "squalifier",
        &[
            "urn:utopia:ns:qualifierValue",
            "http://www.w3.org/ns/prov#value",
        ],
    ),
    (
        "timemention",
        &[
            "urn:utopia:ns:shape",
            "urn:utopia:ns:reference",
            "urn:utopia:ns:granularity",
            "urn:utopia:ns:grade",
            "urn:utopia:ns:resolvedFrom",
            "urn:utopia:ns:resolvedFromPrecision",
            "urn:utopia:ns:resolvedTo",
            "urn:utopia:ns:resolvedToPrecision",
            "urn:utopia:ns:resolvedAt",
        ],
    ),
    (
        "derived",
        &[
            "http://www.w3.org/1999/02/22-rdf-syntax-ns#object",
            "urn:utopia:ns:unit",
            "https://schema.org/validFrom",
            "urn:utopia:ns:validFromPrecision",
            "https://schema.org/validThrough",
            "urn:utopia:ns:validThroughPrecision",
            "urn:utopia:ns:endedUnknown",
            "http://www.w3.org/ns/prov#invalidatedAtTime",
            "http://www.w3.org/ns/prov#used",
            "urn:utopia:ns:premise",
        ],
    ),
    (
        "class",
        &[
            "http://www.w3.org/2000/01/rdf-schema#comment",
            "urn:utopia:ns:builtin",
            "http://www.w3.org/2000/01/rdf-schema#subClassOf",
            "urn:utopia:ns:primaryType",
            "http://www.w3.org/2002/07/owl#disjointWith",
        ],
    ),
    (
        "relation",
        &[
            "http://www.w3.org/1999/02/22-rdf-syntax-ns#type",
            "http://www.w3.org/2000/01/rdf-schema#comment",
            "urn:utopia:ns:temporal",
            "urn:utopia:ns:builtin",
            "http://www.w3.org/2002/07/owl#inverseOf",
            "http://www.w3.org/2000/01/rdf-schema#subPropertyOf",
            "urn:utopia:ns:allowedQualifier",
            "http://www.w3.org/2000/01/rdf-schema#domain",
            "http://www.w3.org/2000/01/rdf-schema#range",
            "urn:utopia:ns:datatype",
            "urn:utopia:ns:unit",
        ],
    ),
    (
        "arule",
        &[
            "http://www.w3.org/2000/01/rdf-schema#comment",
            "urn:utopia:ns:concludesType",
            "urn:utopia:ns:concludesPredicate",
            "urn:utopia:ns:concludesValue",
            "urn:utopia:ns:concludeExpr",
            "urn:utopia:ns:readsPredicate",
            "urn:utopia:ns:condition",
            "urn:utopia:ns:disabled",
        ],
    ),
    (
        "condition",
        &["urn:utopia:ns:operand", "urn:utopia:ns:readsPredicate"],
    ),
    (
        "document",
        &[
            "urn:utopia:ns:tag",
            "urn:utopia:ns:externalKey",
            "https://schema.org/datePublished",
            "http://www.w3.org/ns/prov#invalidatedAtTime",
            "urn:utopia:ns:purgedAt",
        ],
    ),
    (
        "chunk",
        &[
            "urn:utopia:ns:heading",
            "urn:utopia:ns:ofVersion",
            "urn:utopia:ns:extractedAt",
            "http://www.w3.org/ns/prov#invalidatedAtTime",
        ],
    ),
    (
        "evidence",
        &[
            "urn:utopia:ns:quote",
            "http://www.w3.org/ns/prov#wasDerivedFrom",
            "urn:utopia:ns:docVersion",
            "urn:utopia:ns:ofVersion",
            "urn:utopia:ns:proposedPredicate",
        ],
    ),
];

const SYNTHETIC_ONLY_CELLS: &[(&str, &str)] = &[("derived", "urn:utopia:ns:endedUnknown")];

const EMPTY_IMPOSSIBLE: &[(&str, &str)] = &[
    (
        "relation",
        "http://www.w3.org/1999/02/22-rdf-syntax-ns#type",
    ),
    ("fact", "http://www.w3.org/1999/02/22-rdf-syntax-ns#type"),
];

#[test]
fn the_fixture_exercises_every_declared_conditional_cell() {
    let fx = Fx::full();
    let x = expected(&fx);

    let mut uncovered = vec![];
    for (kind, cells) in CONDITIONAL_CELLS {
        for cell in *cells {
            let key = (kind.to_string(), cell.to_string());
            if !x.non_empty.contains(&key) {
                uncovered.push(format!("{kind}/{cell}: true branch never produced"));
            }
            let exempt_empty = EMPTY_IMPOSSIBLE.iter().any(|e| *e == (*kind, *cell));
            if !x.empty.contains(&key) && !exempt_empty {
                uncovered.push(format!("{kind}/{cell}: false branch never produced"));
            }
        }
    }
    assert!(
        uncovered.is_empty(),
        "declared conditional cells not exercised by Fx::full():\n{}",
        uncovered.join("\n")
    );

    assert!(
        x.multi.contains(&(
            "relation".to_string(),
            "http://www.w3.org/1999/02/22-rdf-syntax-ns#type".to_string()
        )),
        "relation flag-conditional extra rdf:type member never exercised"
    );
    assert!(
        x.multi.contains(&(
            "fact".to_string(),
            "http://www.w3.org/1999/02/22-rdf-syntax-ns#type".to_string()
        )),
        "fact layer-conditional extra rdf:type member never exercised"
    );

    for (kind, cell) in SYNTHETIC_ONLY_CELLS {
        assert!(
            x.non_empty
                .contains(&((*kind).to_string(), (*cell).to_string())),
            "synthetic-only cell {kind}/{cell} must be exercised"
        );
    }

    let d4 = mint("derived", &id(37).to_string());
    assert!(
        x.triples
            .contains(&(d4.into(), nn2("urn:utopia:ns:endedUnknown"), t_flag())),
        "synthetic derived must emit endedUnknown"
    );
    let f5 = mint("fact", &id(5).to_string());
    let spouse = mint("relation", "spouse");
    let value_lit: Term =
        Literal::new_typed_literal("via introduction", xsd::STRING).into();
    let entity_term: Term = mint("entity", &id(11).to_string()).into();
    assert!(
        x.triples
            .contains(&(f5.clone().into(), spouse.clone(), value_lit)),
        "synthetic qualifier: value must win over entity_id"
    );
    assert!(
        !x.triples.contains(&(f5.into(), spouse, entity_term)),
        "synthetic qualifier: entity_id must lose to value"
    );
}
