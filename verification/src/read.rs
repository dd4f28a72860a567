//! How a file is read: the triples that a parser finds in it.
use crate::sink::{all_valid, document_bytes, export_prefixes, Format, Written};
use crate::term::{typed, SubjectView, TermView, TripleView};
use oxrdf::{NamedOrBlankNode, Term};
use vstd::prelude::*;
use vstd::string::*;

verus! {

/// The subject of a triple that was read.
#[derive(Debug, PartialEq, Eq)]
pub enum Subject {
    Named(String),
    Blank(String),
}

/// The object of a triple that was read: a resource, a blank node, or a literal with its value and
/// datatype and perhaps a language.
#[derive(Debug, PartialEq, Eq)]
pub enum Object {
    Named(String),
    Blank(String),
    Literal(String, String, Option<String>),
}

/// A triple that was read.
#[derive(Debug, PartialEq, Eq)]
pub struct Reading {
    pub subject: Subject,
    pub predicate: String,
    pub object: Object,
}

/// What a triple that was read is: a triple, and the language of its object.
pub struct ReadingView {
    pub triple: TripleView,
    pub language: Option<Seq<char>>,
}

impl View for Subject {
    type V = SubjectView;

    open spec fn view(&self) -> SubjectView {
        match *self {
            Subject::Named(iri) => SubjectView::Named(iri@),
            Subject::Blank(label) => SubjectView::Blank(label@),
        }
    }
}

impl View for Object {
    type V = TermView;

    open spec fn view(&self) -> TermView {
        match *self {
            Object::Named(iri) => TermView::Named(iri@),
            Object::Blank(label) => TermView::Blank(label@),
            Object::Literal(value, datatype, _) => TermView::Literal(typed(value@, datatype@)),
        }
    }
}

impl View for Reading {
    type V = ReadingView;

    open spec fn view(&self) -> ReadingView {
        ReadingView {
            triple: TripleView {
                subject: self.subject@,
                predicate: self.predicate@,
                object: self.object@,
            },
            language: match self.object {
                Object::Literal(_, _, Some(tag)) => Some(tag@),
                _ => None,
            },
        }
    }
}

/// A triple whose object has no language.
pub open spec fn untagged(triple: TripleView) -> ReadingView {
    ReadingView { triple, language: None }
}

/// A quad of oxrdf.
#[verifier::external_type_specification]
#[verifier::external_body]
pub struct ExQuad(oxrdf::Quad);

/// Subject, predicate and object of a quad, and the language of the object.
pub uninterp spec fn quad_view(q: oxrdf::Quad) -> ReadingView;

/// The fields of `oxrdf::Quad` but for the graph, converted one by one.
#[verifier::external_body]
fn quad_parts(q: &oxrdf::Quad) -> (r: Reading)
    ensures
        r@ == quad_view(*q),
{
    let subject = match &q.subject {
        NamedOrBlankNode::NamedNode(n) => Subject::Named(n.as_str().into()),
        NamedOrBlankNode::BlankNode(b) => Subject::Blank(b.as_str().into()),
    };
    let object = match &q.object {
        Term::NamedNode(n) => Object::Named(n.as_str().into()),
        Term::BlankNode(b) => Object::Blank(b.as_str().into()),
        Term::Literal(l) => Object::Literal(
            l.value().into(), l.datatype().as_str().into(), l.language().map(Into::into)),
    };
    Reading { subject, predicate: q.predicate.as_str().into(), object }
}

/// `oxrdfio::RdfParser::for_slice` without named graphs: the quads of the default graph, in order, if
/// the document has no error and no named graph. What a serializer of oxrdfio wrote with the prefixes
/// of an export, triple by triple and to the end, is read back as the triples that it was told, in
/// their order, as long as they are valid. Of other documents nothing is claimed: what they say takes
/// the grammars of Turtle and JSON-LD, and nodes without a label get one by chance.
#[verifier::external_body]
fn parse_quads(format: Format, document: &[u8]) -> (r: Option<Vec<oxrdf::Quad>>)
    ensures
        forall|w: Written|
            document@ == #[trigger] document_bytes(w) && w.format == format && w.prefixes
                == export_prefixes() && all_valid(w.triples) ==> r is Some && r->0@.len()
                == w.triples.len() && forall|i: int|
                0 <= i < w.triples.len() ==> quad_view(#[trigger] r->0@[i]) == untagged(w.triples[i]),
{
    let parser = oxrdfio::RdfParser::from_format(match format {
        Format::Turtle => oxrdfio::RdfFormat::Turtle,
        Format::JsonLd => oxrdfio::RdfFormat::JsonLd { profile: oxrdfio::JsonLdProfileSet::empty() },
    });
    let quads: Result<Vec<_>, _> = parser.without_named_graphs().for_slice(document).collect();
    quads.ok()
}

/// What was read is exactly some triples, in their order.
pub open spec fn reads_as(all: Seq<Reading>, triples: Seq<TripleView>) -> bool {
    &&& all.len() == triples.len()
    &&& forall|i: int| 0 <= i < all.len() ==> (#[trigger] all[i])@ == untagged(triples[i])
}

impl Format {
    /// The triples of a document in this format, if it has no error and no named graph. The file of
    /// an export reads back as the triples that were written, in their order.
    pub fn read(self, document: &[u8]) -> (r: Option<Vec<Reading>>)
        ensures
            forall|w: Written|
                document@ == #[trigger] document_bytes(w) && w.format == self && w.prefixes
                    == export_prefixes() && all_valid(w.triples) ==> r is Some && reads_as(
                    r->0@,
                    w.triples,
                ),
    {
        let quads: Vec<oxrdf::Quad> = match parse_quads(self, document) {
            Some(quads) => quads,
            None => {
                return None;
            },
        };
        let mut all: Vec<Reading> = Vec::new();
        let mut i: usize = 0;
        while i < quads.len()
            invariant
                i <= quads.len(),
                all@.len() == i,
                forall|j: int| 0 <= j < i ==> (#[trigger] all@[j])@ == quad_view(quads@[j]),
            decreases quads.len() - i,
        {
            all.push(quad_parts(&quads[i]));
            i += 1;
        }
        Some(all)
    }
}

} // verus!
