//! Files that are read again.
use ledger_rdf::literals::{confidence, flag, integer, text, world_time};
use ledger_rdf::read::{Object, Reading, Subject};
use ledger_rdf::sink::{Format, SharedBuf, Sink};
use ledger_rdf::term::{
    prov, rdf, rdfs, utopia, BlankNode, Literal, NamedNode, SubjectRef, TermRef, TripleRef,
};
use ledger_rdf::time::DateTime;

const FORMATS: [Format; 2] = [Format::Turtle, Format::JsonLd];

fn node(iri: &str) -> NamedNode {
    NamedNode::new(iri.to_string()).unwrap()
}

fn named(s: &str, p: &str, o: &str) -> Reading {
    Reading {
        subject: Subject::Named(s.into()),
        predicate: p.into(),
        object: Object::Named(o.into()),
    }
}

fn literal(s: &str, p: &str, o: &Literal) -> Reading {
    Reading {
        subject: Subject::Named(s.into()),
        predicate: p.into(),
        object: Object::Literal(o.value().into(), o.datatype().into(), None),
    }
}

#[test]
fn resources_read_back_in_the_order_in_which_they_were_written() {
    let s = [
        "urn:a",
        "https://schema.org/Person",
        "https://schema.org/",
        "https://schema.org/a.b/c?d=%41#e_~!$&'()*+,;=:@-.",
        "https://schema.org/.x.",
        "urn:utopia:ns:a:b..c",
        "schema:Person",
        "rdf:type",
        "http://[::1]/x",
        "http://\u{e9}\u{4e2d}.example/\u{10000}",
    ];
    for format in FORMATS {
        let mut sink = Sink::new(format, SharedBuf::default());
        let mut expected = vec![];
        for a in s {
            for p in ["http://www.w3.org/1999/02/22-rdf-syntax-ns#type", "urn:p", a] {
                for o in s {
                    sink.r(&node(a), &node(p), &node(o));
                    expected.push(named(a, p, o));
                }
            }
            sink.r(&node(a), &node("urn:p"), &node(a));
            expected.push(named(a, "urn:p", a));
        }
        assert_eq!(format.read(&sink.finish().take()), Some(expected));
    }
}

#[test]
fn literals_read_back_with_value_and_datatype() {
    let at = DateTime::from_timestamp(1_780_272_000, 0).unwrap();
    let all = vec![
        text(""),
        text("\"\"\""),
        text("a\\b'c\"d\ne\rf\tg\u{8}h\u{c}i\u{0}j\u{1f}k\u{7f}l\u{85}m\u{2028}n\u{feff}o"),
        text("\u{fffe}\u{ffff}\u{10ffff}"),
        text("true"),
        text("# no comment ."),
        text("@context"),
        flag(true),
        flag(false),
        integer(0),
        integer(-7),
        integer(i64::MAX),
        confidence("0.75"),
        confidence("1."),
        confidence(".5"),
        confidence("-.5"),
        confidence("+3"),
        confidence("1e3"),
        confidence("not a number"),
        world_time(at, Some("year")),
        world_time(at, Some("month")),
        world_time(at, Some("day")),
        world_time(at, Some("second")),
    ];
    for format in FORMATS {
        let mut sink = Sink::new(format, SharedBuf::default());
        let mut expected = vec![];
        for o in &all {
            sink.l(&node("urn:s"), &rdfs("label"), o);
            expected.push(literal("urn:s", rdfs("label").as_str(), o));
        }
        sink.l(&node("urn:s"), &rdf("type"), &all[0]);
        expected.push(literal("urn:s", rdf("type").as_str(), &all[0]));
        assert_eq!(format.read(&sink.finish().take()), Some(expected));
    }
}

#[test]
fn blank_nodes_keep_their_labels() {
    for format in FORMATS {
        let mut sink = Sink::new(format, SharedBuf::default());
        let mut expected = vec![];
        for label in ["sq-05-0", "a.b", "0", "_x", "\u{e9}\u{b7}"] {
            let blank = BlankNode::new(label.to_string()).unwrap();
            sink.triple(&TripleRef {
                subject: SubjectRef::NamedNode(&node("urn:s")),
                predicate: &utopia("unit"),
                object: TermRef::BlankNode(&blank),
            });
            expected.push(Reading {
                subject: Subject::Named("urn:s".into()),
                predicate: "urn:utopia:ns:unit".into(),
                object: Object::Blank(label.into()),
            });
            sink.triple(&TripleRef {
                subject: SubjectRef::BlankNode(&blank),
                predicate: &prov("value"),
                object: TermRef::NamedNode(&node("urn:o")),
            });
            expected.push(Reading {
                subject: Subject::Blank(label.into()),
                predicate: "http://www.w3.org/ns/prov#value".into(),
                object: Object::Named("urn:o".into()),
            });
        }
        assert_eq!(format.read(&sink.finish().take()), Some(expected));
    }
}

#[test]
fn both_formats_read_as_the_same_triples() {
    let read = |format: Format| {
        let mut sink = Sink::new(format, SharedBuf::default());
        sink.r(&node("urn:a"), &node("urn:p"), &node("urn:b"));
        sink.l(&node("urn:b"), &node("urn:p"), &text("x"));
        sink.r(&node("urn:a"), &node("urn:q"), &node("urn:b"));
        sink.r(&node("urn:a"), &node("urn:p"), &node("urn:c"));
        sink.r(&node("urn:a"), &node("urn:p"), &node("urn:b"));
        format.read(&sink.finish().take()).unwrap()
    };
    assert_eq!(read(Format::Turtle), read(Format::JsonLd));
    assert_eq!(read(Format::Turtle).len(), 5);
}

#[test]
fn an_empty_file_reads_as_nothing() {
    for format in FORMATS {
        let sink = Sink::new(format, SharedBuf::default());
        assert_eq!(format.read(&sink.finish().take()), Some(vec![]));
    }
}

#[test]
fn other_documents_are_read_or_refused() {
    assert_eq!(Format::Turtle.read(b"<urn:a> <urn:p> "), None);
    assert_eq!(Format::JsonLd.read(b"<urn:a> <urn:p> <urn:b> ."), None);
    assert_eq!(
        Format::Turtle.read(b"<urn:a> <urn:p> <urn:b> ."),
        Some(vec![named("urn:a", "urn:p", "urn:b")])
    );
    assert_eq!(
        Format::Turtle.read(b"<urn:a> <urn:p> \"chat\"@fr ."),
        Some(vec![Reading {
            subject: Subject::Named("urn:a".into()),
            predicate: "urn:p".into(),
            object: Object::Literal(
                "chat".into(),
                "http://www.w3.org/1999/02/22-rdf-syntax-ns#langString".into(),
                Some("fr".into())
            ),
        }])
    );
    let graph = r#"[{"@id": "urn:g", "@graph": [{"@id": "urn:a", "urn:p": [{"@id": "urn:b"}]}]}]"#;
    assert_eq!(Format::JsonLd.read(graph.as_bytes()), None);
}
