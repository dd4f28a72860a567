//! Names, identifiers, times, texts and terms.
use ledger_rdf::json::Json;
use ledger_rdf::literals::{confidence, dt, flag, integer, literal_value, sub_day, text, world_time};
use ledger_rdf::names::Names;
use ledger_rdf::rows::{ExportClass, ExportRelation};
use ledger_rdf::term::{owl, prov, rdf, rdfs, schema, utopia, BlankNode, NamedNode};
use ledger_rdf::text::{
    ascii_lowercase, contains_any, join2, join3, signed_text, starts_with, str_eq, trim,
    trim_end_slashes, unsigned_text,
};
use ledger_rdf::time::{
    DateTime, FIRST_OF_FOUR_DIGITS, FIRST_SECOND, LAST_OF_FOUR_DIGITS, LAST_SECOND,
};
use ledger_rdf::uuid::Uuid;

const KB: &str = "01a06dc4-f40a-7013-b09f-1b499e2e7441";

fn kb() -> Uuid {
    Uuid::parse_str(KB).unwrap()
}

fn id(n: u8) -> Uuid {
    Uuid::from_u128(u128::from_be_bytes([n; 16]))
}

fn at(secs: i64, nanos: u32) -> DateTime {
    DateTime::from_timestamp(secs, nanos).unwrap()
}

fn class(key: &str, iri: Option<&str>) -> ExportClass {
    ExportClass {
        id: id(1),
        key: key.into(),
        label: key.into(),
        description: String::new(),
        iri: iri.map(str::to_string),
        builtin: false,
        parents: vec![],
        primary_parents: vec![],
        disjoint: vec![],
        updated_at: at(0, 0),
    }
}

fn relation(key: &str, iri: Option<&str>) -> ExportRelation {
    ExportRelation {
        id: id(2),
        key: key.into(),
        label: key.into(),
        description: String::new(),
        iri: iri.map(str::to_string),
        kind: "relation".into(),
        datatype: None,
        unit: None,
        temporal: "state".into(),
        functional: false,
        inverse_functional: false,
        is_transitive: false,
        is_symmetric: false,
        is_asymmetric: false,
        is_irreflexive: false,
        builtin: false,
        inverse_of: None,
        sub_property_of: None,
        qualifiers: vec![],
        domains: vec![],
        ranges: vec![],
        updated_at: at(0, 0),
    }
}

#[test]
fn every_kind_of_row_has_a_urn_of_its_own() {
    let names = Names::new(kb(), None).unwrap();
    assert_eq!(names.kb_id(), kb());
    let a = "05050505-0505-0505-0505-050505050505";
    let b = "06060606-0606-0606-0606-060606060606";
    let expected = [
        (names.entity(id(5)), format!("urn:utopia:kb:{KB}:entity:{a}")),
        (names.fact(id(5)), format!("urn:utopia:kb:{KB}:fact:{a}")),
        (names.derived(id(5)), format!("urn:utopia:kb:{KB}:derived:{a}")),
        (names.document(id(5)), format!("urn:utopia:kb:{KB}:document:{a}")),
        (names.chunk(id(5)), format!("urn:utopia:kb:{KB}:chunk:{a}")),
        (names.evidence(id(5), id(6)), format!("urn:utopia:kb:{KB}:evidence:{a}:{b}")),
        (names.rule(id(5)), format!("urn:utopia:kb:{KB}:rule:{a}")),
        (names.attribute_rule(id(5)), format!("urn:utopia:kb:{KB}:arule:{a}")),
        (names.premise(id(5), 7), format!("urn:utopia:kb:{KB}:premise:{a}:7")),
        (names.premise(id(5), -7), format!("urn:utopia:kb:{KB}:premise:{a}:-7")),
        (names.condition(id(5), 0, 12), format!("urn:utopia:kb:{KB}:condition:{a}:0:12")),
        (names.condition(id(5), 1, 2), format!("urn:utopia:kb:{KB}:condition:{a}:1:2")),
        (names.docversion(id(5), i32::MIN), format!("urn:utopia:kb:{KB}:docversion:{a}:-2147483648")),
        (names.mention(id(5)), format!("urn:utopia:kb:{KB}:timemention:{a}")),
    ];
    for (i, (node, iri)) in expected.iter().enumerate() {
        assert_eq!(node.as_str(), iri.as_str());
        for (other, _) in &expected[..i] {
            assert_ne!(node.as_str(), other.as_str());
        }
    }
}

#[test]
fn a_base_makes_http_iris_and_its_end_slashes_do_not_matter() {
    let plain = Names::new(kb(), Some("https://acme.example/utopia")).unwrap();
    assert_eq!(
        plain.evidence(id(5), id(6)).as_str(),
        format!(
            "https://acme.example/utopia/kb/{KB}/evidence/\
             05050505-0505-0505-0505-050505050505:06060606-0606-0606-0606-060606060606"
        )
    );
    for base in ["https://acme.example/utopia/", "  https://acme.example/utopia///\n"] {
        let names = Names::new(kb(), Some(base)).unwrap();
        assert_eq!(names.entity(id(5)).as_str(), plain.entity(id(5)).as_str());
    }
    let other = Names::new(kb(), Some("http://acme.example")).unwrap();
    assert_eq!(
        other.rule(id(8)).as_str(),
        format!("http://acme.example/kb/{KB}/rule/08080808-0808-0808-0808-080808080808")
    );
}

#[test]
fn a_blank_base_counts_as_none() {
    for base in ["", "   ", "\t\n\u{3000}"] {
        let names = Names::new(kb(), Some(base)).unwrap();
        assert_eq!(
            names.entity(id(10)).as_str(),
            Names::new(kb(), None).unwrap().entity(id(10)).as_str()
        );
    }
}

#[test]
fn a_bad_base_is_refused_with_its_reason() {
    for base in ["ftp://acme.example", "acme.example", "HTTPS://acme.example", "urn:x:y"] {
        assert_eq!(
            Names::new(kb(), Some(base)).err().unwrap(),
            "`base` must be an http(s) IRI"
        );
    }
    for c in "<>\"{}|\\^` ".chars() {
        assert_eq!(
            Names::new(kb(), Some(&format!("https://acme.example/a{c}b"))).err().unwrap(),
            "`base` contains characters that cannot appear in an IRI"
        );
    }
}

#[test]
fn a_base_that_no_iri_can_begin_with_is_refused() {
    for base in [
        "https://acme.example/a\tb",
        "https://acme.example/a\nb",
        "https://acme.example/a\u{7f}b",
        "https://acme.example/a\u{85}b",
        "https://acme.example/%zz",
        "https://acme.example/[a]",
        "https://acme.example:port",
        "https://[acme",
    ] {
        assert_eq!(
            Names::new(kb(), Some(base)).err().unwrap(),
            "`base` contains characters that cannot appear in an IRI",
            "{base}"
        );
    }
    for base in ["https://acme.example/a%20b", "http://[::1]:80", "https://acme.example/?q#f"] {
        let names = Names::new(kb(), Some(base)).unwrap();
        assert!(names.condition(id(5), -1, 2).as_str().starts_with(base));
    }
}

#[test]
fn the_same_rows_of_two_knowledge_bases_are_named_apart() {
    let here = Names::new(kb(), None).unwrap();
    let there = Names::new(id(9), None).unwrap();
    assert_ne!(here.fact(id(5)).as_str(), there.fact(id(5)).as_str());
    assert_eq!(
        here.fact(id(5)).as_str(),
        Names::new(kb(), None).unwrap().fact(id(5)).as_str()
    );
    let here = Names::new(kb(), Some("https://acme.example")).unwrap();
    let there = Names::new(id(9), Some("https://acme.example")).unwrap();
    assert_ne!(here.fact(id(5)).as_str(), there.fact(id(5)).as_str());
}

#[test]
fn kind_and_key_make_an_iri_of_their_own() {
    for base in [None, Some("https://acme.example")] {
        let names = Names::new(kb(), base).unwrap();
        let pairs = [("a", "bc"), ("ab", "c"), ("a", "b:c"), ("a", "b"), ("b", "a")];
        for (i, x) in pairs.iter().enumerate() {
            for (j, y) in pairs.iter().enumerate() {
                let same = names.mint(x.0, x.1).as_str() == names.mint(y.0, y.1).as_str();
                assert_eq!(same, i == j, "{x:?} {y:?}");
            }
        }
        assert_eq!(names.mint("rule", &id(8).to_string()).as_str(), names.rule(id(8)).as_str());
    }
}

#[test]
fn the_ontology_keeps_its_iris_where_they_are_some() {
    let names = Names::new(kb(), None).unwrap();
    let imported = class("person", Some("https://schema.org/Person"));
    assert!(names.names_class(&imported));
    assert_eq!(names.class(&imported).as_str(), "https://schema.org/Person");
    let broken = class("person", Some("not an iri"));
    assert!(names.names_class(&broken));
    assert_eq!(names.class(&broken).as_str(), format!("urn:utopia:kb:{KB}:class:person"));
    let own = relation("works_for", None);
    assert!(names.names_relation(&own));
    assert_eq!(names.relation(&own).as_str(), format!("urn:utopia:kb:{KB}:relation:works_for"));
    assert!(!names.names_class(&class("two words", None)));
    assert!(!names.names_relation(&relation("a<b", Some("also not"))));
}

#[test]
fn identifiers_are_written_in_lower_case_groups() {
    assert_eq!(Uuid::from_u128(0).to_string(), "00000000-0000-0000-0000-000000000000");
    assert_eq!(Uuid::from_u128(u128::MAX).to_string(), "ffffffff-ffff-ffff-ffff-ffffffffffff");
    assert_eq!(
        Uuid::from_u128(0x0123456789abcdef0123456789abcdef).to_string(),
        "01234567-89ab-cdef-0123-456789abcdef"
    );
    assert_eq!(kb().to_string(), KB);
}

#[test]
fn identifiers_are_read_in_the_usual_forms() {
    let want = Some(kb());
    assert_eq!(Uuid::parse_str(KB), want);
    assert_eq!(Uuid::parse_str("01A06DC4-F40A-7013-B09F-1B499E2E7441"), want);
    assert_eq!(Uuid::parse_str("01a06dc4f40a7013b09f1b499e2e7441"), want);
    assert_eq!(Uuid::parse_str("urn:uuid:01a06dc4-f40a-7013-b09f-1b499e2e7441"), want);
    assert_eq!(Uuid::parse_str("{01a06dc4-f40a-7013-b09f-1b499e2e7441}"), want);
    assert_eq!(Uuid::parse_str(""), None);
    assert_eq!(Uuid::parse_str("01a06dc4-f40a-7013-b09f-1b499e2e744"), None);
    assert_eq!(Uuid::parse_str("not-a-uuid"), None);
}

#[test]
fn times_have_a_range_and_an_order() {
    assert!(DateTime::from_timestamp(i64::MAX, 0).is_none());
    assert!(DateTime::from_timestamp(i64::MIN, 0).is_none());
    assert!(DateTime::from_timestamp(0, 2_000_000_000).is_none());
    assert!(DateTime::from_timestamp(0, 1_000_000_000).is_none());
    assert!(DateTime::from_timestamp(59, 1_999_999_999).is_some());
    assert!(DateTime::from_timestamp(-1, 1_999_999_999).is_some());
    assert!(DateTime::from_timestamp(59, 2_000_000_000).is_none());
    assert_eq!(at(FIRST_SECOND, 0).date(), "-262143-01-01");
    assert_eq!(at(LAST_SECOND, 999_999_999).date(), "+262142-12-31");
    assert!(DateTime::from_timestamp(FIRST_SECOND - 1, 0).is_none());
    assert!(DateTime::from_timestamp(LAST_SECOND + 1, 0).is_none());
    let early = at(5, 1);
    let late = at(5, 2);
    assert!(early.at_or_before(&late));
    assert!(early.at_or_before(&early));
    assert!(!late.at_or_before(&early));
    assert!(at(-1, 999_999_999).at_or_before(&at(0, 0)));
    assert!(!at(0, 0).at_or_before(&at(-1, 999_999_999)));
}

#[test]
fn times_are_written_with_the_decimals_they_need() {
    assert_eq!(at(0, 0).to_rfc3339(), "1970-01-01T00:00:00Z");
    assert_eq!(at(0, 100_000_000).to_rfc3339(), "1970-01-01T00:00:00.100Z");
    assert_eq!(at(0, 1_000).to_rfc3339(), "1970-01-01T00:00:00.000001Z");
    assert_eq!(at(0, 1).to_rfc3339(), "1970-01-01T00:00:00.000000001Z");
    assert_eq!(at(59, 1_500_000_000).to_rfc3339(), "1970-01-01T00:00:60.500Z");
    assert_eq!(at(59, 500_000_000).to_rfc3339(), "1970-01-01T00:00:59.500Z");
    assert_eq!(at(-1, 999_999_999).to_rfc3339_secs(), "1969-12-31T23:59:59Z");
    assert_eq!(at(-1, 0).date(), "1969-12-31");
}

#[test]
fn instants_read_back_as_they_were_written() {
    for (secs, nanos) in [
        (0, 0),
        (0, 1),
        (59, 1_999_999_999),
        (1_784_550_896, 123_456_000),
        (-1, 100_000_000),
        (FIRST_OF_FOUR_DIGITS, 0),
        (LAST_OF_FOUR_DIGITS, 999_999_999),
        (LAST_OF_FOUR_DIGITS, 1_999_999_999),
    ] {
        let t = at(secs, nanos);
        assert_eq!(DateTime::parse_rfc3339(dt(t).value()), Some(t));
    }
    assert_eq!(DateTime::parse_rfc3339("2026-09-20 02:00:00+02:00"), Some(at(1_789_862_400, 0)));
    assert_eq!(DateTime::parse_rfc3339("2026-09-20"), None);
    assert_eq!(DateTime::parse_rfc3339(""), None);
}

#[test]
fn precisions_have_datatypes_of_their_own() {
    let t = at(1_784_550_896, 5);
    for (precision, datatype) in [
        (Some("year"), "http://www.w3.org/2001/XMLSchema#gYear"),
        (Some("month"), "http://www.w3.org/2001/XMLSchema#gYearMonth"),
        (Some("day"), "http://www.w3.org/2001/XMLSchema#date"),
        (Some("unknown"), "http://www.w3.org/2001/XMLSchema#date"),
        (None, "http://www.w3.org/2001/XMLSchema#date"),
        (Some("second"), "http://www.w3.org/2001/XMLSchema#dateTime"),
    ] {
        assert_eq!(world_time(t, precision).datatype(), datatype);
    }
    assert_eq!(world_time(t, Some("year")).value(), "2026");
    assert_eq!(world_time(t, Some("month")).value(), "2026-07");
    assert_eq!(world_time(t, None).value(), "2026-07-20");
    assert_eq!(world_time(t, Some("minute")).value(), "2026-07-20T12:34:56Z");
    for precision in ["hour", "minute", "second"] {
        assert_eq!(sub_day(Some(precision)), Some(precision));
    }
    for precision in ["year", "month", "day", "unknown", ""] {
        assert_eq!(sub_day(Some(precision)), None);
    }
    assert_eq!(sub_day(None), None);
}

#[test]
fn a_year_outside_four_digits_stays_that_year() {
    let far = at(253_402_300_800, 0);
    assert_eq!(far.date(), "+10000-01-01");
    assert_eq!(world_time(far, Some("year")).value(), "+10000");
    assert_eq!(world_time(far, Some("month")).value(), "+10000-01");
    let early = at(-63_549_360_000, 0);
    assert_eq!(early.date(), "-0044-03-15");
    assert_eq!(world_time(early, Some("year")).value(), "-0044");
    assert_eq!(world_time(early, Some("month")).value(), "-0044-03");
}

#[test]
fn literals_carry_their_datatypes() {
    let l = text("a");
    assert_eq!((l.value(), l.datatype()), ("a", "http://www.w3.org/2001/XMLSchema#string"));
    let l = dt(at(0, 0));
    assert_eq!(
        (l.value(), l.datatype()),
        ("1970-01-01T00:00:00Z", "http://www.w3.org/2001/XMLSchema#dateTime")
    );
    for (b, s) in [(true, "true"), (false, "false")] {
        let l = flag(b);
        assert_eq!((l.value(), l.datatype()), (s, "http://www.w3.org/2001/XMLSchema#boolean"));
    }
    let l = integer(i64::MIN);
    assert_eq!(
        (l.value(), l.datatype()),
        ("-9223372036854775808", "http://www.w3.org/2001/XMLSchema#integer")
    );
    let l = confidence("0.75");
    assert_eq!((l.value(), l.datatype()), ("0.75", "http://www.w3.org/2001/XMLSchema#decimal"));
}

#[test]
fn a_stored_value_is_its_value_its_summary_or_its_json() {
    let obj = |fields: Vec<(&str, Json)>| {
        Json::Object(fields.into_iter().map(|(k, v)| (k.to_string(), v)).collect())
    };
    let s = |t: &str| Json::Text(t.to_string());
    let value = |v: &Json, d: Option<&str>| {
        let l = literal_value(v, d);
        (l.value().to_string(), l.datatype().rsplit('#').next().unwrap().to_string())
    };
    let is = |v: &str, d: &str| (v.to_string(), d.to_string());
    assert_eq!(value(&obj(vec![("value", s("x"))]), None), is("x", "string"));
    assert_eq!(value(&s("bare"), Some("date")), is("bare", "date"));
    assert_eq!(
        value(&obj(vec![("value", Json::Number(7u64.into()))]), Some("number")),
        is("7", "decimal")
    );
    assert_eq!(value(&obj(vec![("value", Json::Bool(true))]), Some("bool")), is("true", "boolean"));
    assert_eq!(
        value(&obj(vec![("value", Json::Null), ("summary", s("none"))]), None),
        is("none", "string")
    );
    assert_eq!(value(&obj(vec![("value", Json::Null)]), None), is("", "string"));
    assert_eq!(value(&obj(vec![("summary", s("not specified"))]), None), is("not specified", "string"));
    assert_eq!(
        value(&obj(vec![("summary", s("soon")), ("relative", Json::Bool(true))]), Some("date")),
        is("soon", "string")
    );
    assert_eq!(
        value(&obj(vec![("value", s("x")), ("summary", s("y"))]), None),
        is("x", "string")
    );
    assert_eq!(
        value(&obj(vec![("summary", Json::Bool(true))]), None),
        is("{\"summary\":true}", "string")
    );
    assert_eq!(value(&Json::Null, None), is("", "string"));
    assert_eq!(
        value(&obj(vec![("class", s("gas_well"))]), Some("text")),
        is("{\"class\":\"gas_well\"}", "string")
    );
    assert_eq!(
        value(&obj(vec![("value", s("in a week")), ("relative", Json::Bool(true))]), Some("date")),
        is("in a week", "string")
    );
    assert_eq!(
        value(&obj(vec![("value", s("x")), ("relative", Json::Bool(false))]), Some("date")),
        is("x", "date")
    );
    assert_eq!(
        value(&obj(vec![("value", s("x")), ("relative", s("true"))]), Some("date")),
        is("x", "date")
    );
}

#[test]
fn json_is_looked_into_and_written_out() {
    let doc = Json::Object(vec![
        ("b".to_string(), Json::Array(vec![Json::Null, Json::Bool(false), Json::Number(2u64.into())])),
        ("a".to_string(), Json::Text("quote \" and slash \\".to_string())),
    ]);
    assert!(doc.is_object());
    assert!(!Json::Null.is_object());
    assert_eq!(doc.get_str("a"), Some("quote \" and slash \\"));
    assert_eq!(doc.get_str("b"), None);
    assert!(doc.get("c").is_none());
    assert!(Json::Text("a".to_string()).get("a").is_none());
    assert_eq!(doc.to_text(), r#"{"a":"quote \" and slash \\","b":[null,false,2]}"#);
    assert_eq!(doc.clone().to_text(), doc.to_text());
    assert_eq!(Json::Text("x".to_string()).as_str(), Some("x"));
    assert_eq!(Json::Text("x".to_string()).to_text(), "\"x\"");
}

#[test]
fn of_two_fields_with_one_name_the_later_counts() {
    let doc = Json::Object(vec![
        ("a".to_string(), Json::Bool(false)),
        ("a".to_string(), Json::Bool(true)),
    ]);
    assert!(matches!(doc.get("a"), Some(Json::Bool(true))));
    assert_eq!(doc.to_text(), "{\"a\":true}");
}

#[test]
fn terms_of_the_vocabularies() {
    assert_eq!(rdf("type").as_str(), "http://www.w3.org/1999/02/22-rdf-syntax-ns#type");
    assert_eq!(rdfs("label").as_str(), "http://www.w3.org/2000/01/rdf-schema#label");
    assert_eq!(owl("Class").as_str(), "http://www.w3.org/2002/07/owl#Class");
    assert_eq!(prov("used").as_str(), "http://www.w3.org/ns/prov#used");
    assert_eq!(schema("position").as_str(), "https://schema.org/position");
    assert_eq!(utopia("unit").as_str(), "urn:utopia:ns:unit");
}

#[test]
fn only_iris_and_labels_make_nodes() {
    assert!(NamedNode::new("https://schema.org/Person".to_string()).is_some());
    assert!(NamedNode::new("relative".to_string()).is_none());
    assert!(NamedNode::new(String::new()).is_none());
    assert!(NamedNode::new("https://a b".to_string()).is_none());
    assert_eq!(NamedNode::new("urn:a:b".to_string()).unwrap().copy().as_str(), "urn:a:b");
    assert!(BlankNode::new("sq-05-0".to_string()).is_some());
    assert!(BlankNode::new(String::new()).is_none());
    assert!(BlankNode::new("a b".to_string()).is_none());
    assert!(BlankNode::new("a:b".to_string()).is_none());
}

#[test]
fn texts() {
    assert_eq!(unsigned_text(0), "0");
    assert_eq!(unsigned_text(u64::MAX), "18446744073709551615");
    assert_eq!(signed_text(-10), "-10");
    assert_eq!(signed_text(i64::MIN), "-9223372036854775808");
    assert_eq!(signed_text(i64::MAX), "9223372036854775807");
    assert_eq!(trim(" \t\u{a0}a b\u{2028}\n"), "a b");
    assert_eq!(trim("\u{200b}a"), "\u{200b}a");
    assert_eq!(trim("   "), "");
    assert_eq!(trim_end_slashes("a//b//"), "a//b");
    assert_eq!(trim_end_slashes("///"), "");
    assert_eq!(ascii_lowercase("AbZ\u{c4}"), "abz\u{c4}");
    assert!(starts_with("https://x", "https://"));
    assert!(!starts_with("http", "https"));
    assert!(contains_any("a|b", "<>|"));
    assert!(!contains_any("ab", "<>|"));
    assert!(str_eq("\u{e9}", "\u{e9}"));
    assert!(!str_eq("a", "ab"));
    assert_eq!(join2("a", "b"), "ab");
    assert_eq!(join3("a", "b", "c"), "abc");
}
