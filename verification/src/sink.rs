//! Where triples go: a streaming serializer and the bytes it has not handed out yet.
use crate::term::{
    iri_valid, lemma_namespaces_plain, link, plain_http, plain_urn, says, triple_valid, Literal,
    NamedNode, SubjectRef, TermRef, TripleRef, TripleView, OWL, PROV, RDF, RDFS, SCHEMA, UTOPIA,
    XSD,
};
use crate::text::{ascii_lowercase, lowered, str_eq, trim, trimmed};
use oxrdf::{BlankNodeRef, GraphNameRef, LiteralRef, NamedNodeRef, NamedOrBlankNodeRef, QuadRef};
use std::io::Write;
use std::mem::take;
use std::sync::{Arc, Mutex};
use vstd::prelude::*;
use vstd::string::*;

verus! {

// ---- Formats ----

/// How triples are written down.
#[derive(Debug, Clone, Copy, PartialEq, Eq, Structural)]
pub enum Format {
    Turtle,
    JsonLd,
}

/// The format that a name stands for.
pub open spec fn format_named(name: Seq<char>) -> Option<Format> {
    if name == "turtle"@ || name == "ttl"@ {
        Some(Format::Turtle)
    } else if name == "jsonld"@ || name == "json-ld"@ || name == "json"@ {
        Some(Format::JsonLd)
    } else {
        None
    }
}

impl Format {
    /// The format that is asked for: Turtle where nothing is. Case and the white space around the
    /// name do not matter.
    pub fn parse(raw: Option<&str>) -> (format: Option<Format>)
        ensures
            format == match raw {
                Some(name) => format_named(lowered(trimmed(name@))),
                None => Some(Format::Turtle),
            },
    {
        let name: &str = match raw {
            Some(name) => name,
            None => {
                return Some(Format::Turtle);
            },
        };
        let name: String = ascii_lowercase(trim(name).as_str());
        let name: &str = name.as_str();
        if str_eq(name, "turtle") || str_eq(name, "ttl") {
            Some(Format::Turtle)
        } else if str_eq(name, "jsonld") || str_eq(name, "json-ld") || str_eq(name, "json") {
            Some(Format::JsonLd)
        } else {
            None
        }
    }

    /// The media type of a document in this format.
    pub fn content_type(self) -> (s: &'static str)
        ensures
            s@ == match self {
                Format::Turtle => "text/turtle; charset=utf-8"@,
                Format::JsonLd => "application/ld+json"@,
            },
    {
        match self {
            Format::Turtle => "text/turtle; charset=utf-8",
            Format::JsonLd => "application/ld+json",
        }
    }

    /// The file name extension of a document in this format.
    pub fn extension(self) -> (s: &'static str)
        ensures
            s@ == match self {
                Format::Turtle => "ttl"@,
                Format::JsonLd => "jsonld"@,
            },
    {
        match self {
            Format::Turtle => "ttl",
            Format::JsonLd => "jsonld",
        }
    }
}

// ---- The page buffer ----

/// The bytes that are written and not handed out yet. An export hands them out page by page, so
/// that no document has to fit in memory.
#[derive(Debug)]
pub struct SharedBuf {
    bytes: Vec<u8>,
}

impl View for SharedBuf {
    type V = Seq<u8>;

    closed spec fn view(&self) -> Seq<u8> {
        self.bytes@
    }
}

impl Default for SharedBuf {
    /// Nothing written yet.
    fn default() -> (buf: SharedBuf)
        ensures
            buf@ == Seq::<u8>::empty(),
    {
        SharedBuf { bytes: Vec::new() }
    }
}

impl SharedBuf {
    /// Hands the bytes out; none are left.
    pub fn take(&mut self) -> (bytes: Vec<u8>)
        ensures
            bytes@ == old(self)@,
            final(self)@ == Seq::<u8>::empty(),
    {
        let mut bytes: Vec<u8> = Vec::new();
        std::mem::swap(&mut bytes, &mut self.bytes);
        bytes
    }
}

impl std::io::Write for SharedBuf {
    /// Puts bytes behind those that are there. All of them are taken.
    fn write(&mut self, buf: &[u8]) -> (r: std::io::Result<usize>)
        ensures
            r matches Ok(n) && n == buf@.len(),
            final(self)@ == old(self)@ + buf@,
    {
        self.bytes.extend_from_slice(buf);
        Ok(buf.len())
    }

    /// There is nothing to flush: all bytes are where they belong as soon as they are written.
    fn flush(&mut self) -> (r: std::io::Result<()>)
        ensures
            r == Ok::<(), std::io::Error>(()),
            final(self)@ == old(self)@,
    {
        Ok(())
    }
}

// ---- The serializer ----

/// An I/O error of std.
#[verifier::external_type_specification]
#[verifier::external_body]
pub struct ExIoError(std::io::Error);

/// A lock of std.
#[verifier::external_type_specification]
#[verifier::external_body]
#[verifier::reject_recursive_types(T)]
pub struct ExMutex<T: ?Sized>(std::sync::Mutex<T>);

/// A serializer of oxrdfio that is being set up.
#[verifier::external_type_specification]
#[verifier::external_body]
pub struct ExRdfSerializer(oxrdfio::RdfSerializer);

/// What a serializer was told: its format, the prefixes it was given and the triples it has
/// written, in this order.
#[verifier::ext_equal]
pub struct Written {
    pub format: Format,
    pub prefixes: Seq<(Seq<char>, Seq<char>)>,
    pub triples: Seq<TripleView>,
}

/// What a serializer that is being set up was told.
pub uninterp spec fn serializer_told(s: oxrdfio::RdfSerializer) -> Written;

/// What a serializer at work was told.
pub uninterp spec fn writer_told(w: QuadWriter) -> Written;

/// The bytes that `serialize_quad` of oxrdfio writes for a triple of the default graph, after what
/// the serializer was told before. Which bytes they are takes the grammars of Turtle and JSON-LD to
/// say; that a parser finds the triples of a whole document in them again is claimed of the parser.
pub uninterp spec fn triple_bytes(before: Written, t: TripleView) -> Seq<u8>;

/// The bytes that `finish` of oxrdfio writes, after what the serializer was told before.
pub uninterp spec fn closing_bytes(before: Written) -> Seq<u8>;

/// The end of the serializer's writer that stays in reach.
#[derive(Clone, Default)]
pub struct Outlet(Arc<Mutex<Vec<u8>>>);

impl std::io::Write for Outlet {
    /// Takes all bytes under the lock of std. Nothing is claimed of it here: what a serializer
    /// writes is claimed of the calls that make it write.
    #[verifier::external_body]
    fn write(&mut self, buf: &[u8]) -> std::io::Result<usize> {
        self.0.lock().unwrap().extend_from_slice(buf);
        Ok(buf.len())
    }

    /// There is nothing to flush: all bytes are where they belong as soon as they are written.
    fn flush(&mut self) -> (r: std::io::Result<()>)
        ensures
            r == Ok::<(), std::io::Error>(()),
            *final(self) == *old(self),
    {
        Ok(())
    }
}

/// `oxrdfio::RdfSerializer::from_format`: a serializer that was told its format and nothing else.
#[verifier::external_body]
fn serializer_for(format: Format) -> (s: oxrdfio::RdfSerializer)
    ensures
        serializer_told(s) == (Written { format, prefixes: seq![], triples: seq![] }),
{
    oxrdfio::RdfSerializer::from_format(match format {
        Format::Turtle => oxrdfio::RdfFormat::Turtle,
        Format::JsonLd => oxrdfio::RdfFormat::JsonLd {
            profile: oxrdfio::JsonLdProfile::Streaming.into(),
        },
    })
}

/// `oxrdfio::RdfSerializer::with_prefix`: the serializer is told one more prefix. The call fails
/// only on a text that is no IRI; what is plainly one is taken, as by `oxrdf::NamedNode::new`,
/// since both ask the same parser.
#[verifier::external_body]
fn with_prefix(
    s: oxrdfio::RdfSerializer,
    name: &str,
    iri: &str,
) -> (out: Option<oxrdfio::RdfSerializer>)
    ensures
        iri_valid(iri@) || plain_http(iri@) || plain_urn(iri@) ==> out is Some,
        out matches Some(t) ==> serializer_told(t) == (Written {
            prefixes: serializer_told(s).prefixes.push((name@, iri@)),
            ..serializer_told(s)
        }),
{
    s.with_prefix(name, iri).ok()
}

/// A serializer of oxrdfio at work, together with the bytes that it writes.
#[verifier::external_body]
pub struct QuadWriter {
    serializer: oxrdfio::WriterQuadSerializer<Outlet>,
    outlet: Outlet,
}

impl QuadWriter {
    /// `oxrdfio::RdfSerializer::for_writer`: the serializer goes to work with what it was told.
    #[verifier::external_body]
    fn new(s: oxrdfio::RdfSerializer) -> (w: QuadWriter)
        ensures
            writer_told(w) == serializer_told(s),
    {
        let outlet = Outlet::default();
        QuadWriter { serializer: s.for_writer(outlet.clone()), outlet }
    }

    /// `serialize_quad` of oxrdfio for a triple of the default graph, and the bytes it wrote. It
    /// fails only where its writer does, and an `Outlet` takes everything.
    #[verifier::external_body]
    fn serialize(&mut self, t: &TripleRef<'_>) -> (bytes: std::io::Result<Vec<u8>>)
        ensures
            bytes is Ok,
            bytes->Ok_0@ == triple_bytes(writer_told(*old(self)), t@),
            writer_told(*final(self)) == (Written {
                triples: writer_told(*old(self)).triples.push(t@),
                ..writer_told(*old(self))
            }),
    {
        let s: NamedOrBlankNodeRef = match &t.subject {
            SubjectRef::NamedNode(n) => NamedNodeRef::new_unchecked(&n.iri).into(),
            SubjectRef::BlankNode(b) => BlankNodeRef::new_unchecked(&b.id).into(),
        };
        let o: oxrdf::TermRef = match &t.object {
            TermRef::NamedNode(n) => NamedNodeRef::new_unchecked(&n.iri).into(),
            TermRef::BlankNode(b) => BlankNodeRef::new_unchecked(&b.id).into(),
            TermRef::Literal(l) => LiteralRef::new_typed_literal(
                &l.value, NamedNodeRef::new_unchecked(l.datatype)).into(),
        };
        self.serializer.serialize_quad(QuadRef::new(
            s, NamedNodeRef::new_unchecked(&t.predicate.iri), o, GraphNameRef::DefaultGraph))?;
        Ok(take(&mut *self.outlet.0.lock().unwrap()))
    }

    /// `finish` of oxrdfio, and the bytes it wrote. It fails only where its writer does, and an
    /// `Outlet` takes everything.
    #[verifier::external_body]
    fn finish(self) -> (bytes: std::io::Result<Vec<u8>>)
        ensures
            bytes is Ok,
            bytes->Ok_0@ == closing_bytes(writer_told(self)),
    {
        self.serializer.finish()?;
        Ok(take(&mut *self.outlet.0.lock().unwrap()))
    }
}

/// The bytes of all triples that a serializer was told.
pub open spec fn body_bytes(w: Written) -> Seq<u8>
    decreases w.triples.len(),
{
    if w.triples.len() == 0 {
        Seq::empty()
    } else {
        let before = Written { triples: w.triples.drop_last(), ..w };
        body_bytes(before) + triple_bytes(before, w.triples.last())
    }
}

/// The whole document: the bytes of all triples and what closes it.
pub open spec fn document_bytes(w: Written) -> Seq<u8> {
    body_bytes(w) + closing_bytes(w)
}

/// The prefixes of every export. In Turtle they make the difference between
/// `schema:Organization` and a long IRI.
pub open spec fn export_prefixes() -> Seq<(Seq<char>, Seq<char>)> {
    seq![
        ("rdf"@, RDF@),
        ("rdfs"@, RDFS@),
        ("owl"@, OWL@),
        ("xsd"@, XSD@),
        ("prov"@, PROV@),
        ("schema"@, SCHEMA@),
        ("utopia"@, UTOPIA@),
    ]
}

/// Every IRI and every blank node of some triples is valid.
#[verifier::opaque]
pub open spec fn all_valid(triples: Seq<TripleView>) -> bool {
    forall|i: int| 0 <= i < triples.len() ==> triple_valid(#[trigger] triples[i])
}

/// Where the triples of an export go. The bytes can be taken out at any time, and what has been
/// taken out, with what is left, is always the document so far.
pub struct Sink {
    writer: QuadWriter,
    buf: SharedBuf,
    lead: Ghost<Seq<u8>>,
    taken: Ghost<Seq<u8>>,
}

fn add_prefix(s: oxrdfio::RdfSerializer, name: &str, iri: &str) -> (out: oxrdfio::RdfSerializer)
    requires
        plain_http(iri@) || plain_urn(iri@),
    ensures
        serializer_told(out) == (Written {
            prefixes: serializer_told(s).prefixes.push((name@, iri@)),
            ..serializer_told(s)
        }),
{
    with_prefix(s, name, iri).unwrap()
}

impl Sink {
    /// What the serializer was told so far.
    pub closed spec fn told(self) -> Written {
        writer_told(self.writer)
    }

    /// The triples that were written, in order.
    pub open spec fn triples(self) -> Seq<TripleView> {
        self.told().triples
    }

    /// What was in the buffer before the first triple.
    pub closed spec fn lead(self) -> Seq<u8> {
        self.lead@
    }

    /// The bytes that were taken out.
    pub closed spec fn taken(self) -> Seq<u8> {
        self.taken@
    }

    /// The bytes that wait to be taken out.
    pub closed spec fn pending(self) -> Seq<u8> {
        self.buf@
    }

    /// Nothing is lost on the way out: what was taken and what is pending make up the document so
    /// far, behind what was in the buffer at the start. Every triple of it is valid, and the prefixes
    /// are those of an export.
    pub open spec fn wf(self) -> bool {
        &&& self.taken() + self.pending() == self.lead() + body_bytes(self.told())
        &&& all_valid(self.triples())
        &&& self.told().prefixes == export_prefixes()
    }

    /// The sink `later` is this one with some more triples written and nothing taken out.
    pub open spec fn grown(self, later: Sink, triples: Seq<TripleView>) -> bool {
        &&& later.wf()
        &&& later.told() == (Written { triples, ..self.told() })
        &&& later.lead() == self.lead()
        &&& later.taken() == self.taken()
    }

    /// A sink for a document in this format.
    pub fn new(format: Format, buf: SharedBuf) -> (sink: Sink)
        ensures
            sink.wf(),
            sink.told() == (Written { format, prefixes: export_prefixes(), triples: seq![] }),
            sink.lead() == buf@,
            sink.taken() == Seq::<u8>::empty(),
            sink.pending() == buf@,
    {
        proof {
            lemma_namespaces_plain();
        }
        let s = serializer_for(format);
        let s = add_prefix(s, "rdf", RDF);
        let s = add_prefix(s, "rdfs", RDFS);
        let s = add_prefix(s, "owl", OWL);
        let s = add_prefix(s, "xsd", XSD);
        let s = add_prefix(s, "prov", PROV);
        let s = add_prefix(s, "schema", SCHEMA);
        let s = add_prefix(s, "utopia", UTOPIA);
        proof {
            assert(serializer_told(s).prefixes =~= export_prefixes());
        }
        let sink = Sink {
            writer: QuadWriter::new(s),
            buf,
            lead: Ghost(buf@),
            taken: Ghost(Seq::empty()),
        };
        proof {
            assert(Seq::<u8>::empty() + buf@ =~= buf@ + Seq::<u8>::empty());
            reveal(all_valid);
        }
        sink
    }

    /// Writes a triple.
    pub fn triple(&mut self, t: &TripleRef<'_>)
        requires
            old(self).wf(),
        ensures
            old(self).grown(*final(self), old(self).triples().push(t@)),
            final(self).pending() == old(self).pending() + triple_bytes(old(self).told(), t@),
    {
        let ghost before = self.told();
        let ghost was_pending = self.pending();
        t.show_valid();
        let bytes: Vec<u8> = self.writer.serialize(t).unwrap();
        self.buf.write(bytes.as_slice()).unwrap();
        proof {
            reveal(all_valid);
            let after = self.told();
            assert(after.triples.drop_last() =~= before.triples);
            assert((Written { triples: after.triples.drop_last(), ..after }) =~= before);
            assert(self.taken() + (was_pending + bytes@) =~= (self.taken() + was_pending) + bytes@);
            assert(self.lead() + (body_bytes(before) + bytes@) =~= (self.lead() + body_bytes(before))
                + bytes@);
        }
    }

    /// Writes `s p o`, where `o` is a resource.
    pub fn r(&mut self, s: &NamedNode, p: &NamedNode, o: &NamedNode)
        requires
            old(self).wf(),
        ensures
            old(self).grown(
                *final(self),
                old(self).triples().push(link(s@, p@, o@)),
            ),
    {
        self.triple(
            &TripleRef { subject: SubjectRef::NamedNode(s), predicate: p, object: TermRef::NamedNode(o) },
        )
    }

    /// Writes `s p o`, where `o` is a literal.
    pub fn l(&mut self, s: &NamedNode, p: &NamedNode, o: &Literal)
        requires
            old(self).wf(),
        ensures
            old(self).grown(
                *final(self),
                old(self).triples().push(says(s@, p@, o@)),
            ),
    {
        self.triple(
            &TripleRef { subject: SubjectRef::NamedNode(s), predicate: p, object: TermRef::Literal(o) },
        )
    }

    /// Takes out the bytes that are pending.
    pub fn take(&mut self) -> (bytes: Vec<u8>)
        requires
            old(self).wf(),
        ensures
            bytes@ == old(self).pending(),
            final(self).wf(),
            final(self).told() == old(self).told(),
            final(self).lead() == old(self).lead(),
            final(self).taken() == old(self).taken() + bytes@,
            final(self).pending() == Seq::<u8>::empty(),
    {
        let bytes: Vec<u8> = self.buf.take();
        proof {
            self.taken@ = self.taken@ + bytes@;
            assert(self.taken() + Seq::<u8>::empty() =~= self.taken());
        }
        bytes
    }

    /// Ends the document and gives back what is left to be taken out. With what was taken before,
    /// that is the whole document.
    pub fn finish(self) -> (rest: SharedBuf)
        requires
            self.wf(),
        ensures
            rest@ == self.pending() + closing_bytes(self.told()),
            self.taken() + rest@ == self.lead() + document_bytes(self.told()),
            self.taken().len() == 0 && self.lead().len() == 0 ==> rest@ == document_bytes(self.told()),
    {
        let Sink { writer, buf, lead, taken } = self;
        let mut rest: SharedBuf = buf;
        let bytes: Vec<u8> = writer.finish().unwrap();
        proof {
            let pending = self.pending();
            let body = body_bytes(self.told());
            assert(self.taken() + (pending + bytes@) =~= (self.taken() + pending) + bytes@);
            assert(self.lead() + (body + bytes@) =~= (self.lead() + body) + bytes@);
            if self.taken().len() == 0 && self.lead().len() == 0 {
                assert(self.taken() + (pending + bytes@) =~= pending + bytes@);
                assert(self.lead() + document_bytes(self.told()) =~= document_bytes(self.told()));
            }
        }
        rest.write(bytes.as_slice()).unwrap();
        rest
    }
}

} // verus!
