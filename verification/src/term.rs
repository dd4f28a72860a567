//! RDF terms and triples, and the vocabularies that an export speaks.
use crate::text::{contains_any, holds_any, join2};
use vstd::prelude::*;
use vstd::string::*;

verus! {

// ---- IRIs ----

/// Whether `oxrdf::NamedNode::new` takes a text as an IRI.
pub uninterp spec fn iri_valid(s: Seq<char>) -> bool;

/// The unreserved characters of RFC 3986.
pub open spec fn unreserved(c: char) -> bool {
    ||| 'a' <= c <= 'z'
    ||| 'A' <= c <= 'Z'
    ||| '0' <= c <= '9'
    ||| c == '-'
    ||| c == '_'
    ||| c == '.'
    ||| c == '~'
}

/// `urn:` and then only unreserved characters and colons.
pub open spec fn plain_urn(s: Seq<char>) -> bool {
    &&& s.len() >= 4
    &&& s[0] == 'u' && s[1] == 'r' && s[2] == 'n' && s[3] == ':'
    &&& forall|i: int| 4 <= i < s.len() ==> unreserved(#[trigger] s[i]) || s[i] == ':'
}

/// From position `i` on only unreserved characters and slashes, and at most one fragment of
/// unreserved characters.
pub open spec fn plain_from(s: Seq<char>, i: int) -> bool
    decreases s.len() - i,
{
    if i >= s.len() {
        true
    } else if s[i] == '#' {
        forall|j: int| i < j < s.len() ==> unreserved(#[trigger] s[j])
    } else {
        (unreserved(s[i]) || s[i] == '/') && plain_from(s, i + 1)
    }
}

/// `http://` or `https://` and then only unreserved characters and slashes, and at most one fragment
/// of unreserved characters.
pub open spec fn plain_http(s: Seq<char>) -> bool {
    &&& s.len() >= 8
    &&& s[0] == 'h' && s[1] == 't' && s[2] == 't' && s[3] == 'p'
    &&& ({
        ||| s[4] == ':' && s[5] == '/' && s[6] == '/' && plain_from(s, 7)
        ||| s[4] == 's' && s[5] == ':' && s[6] == '/' && s[7] == '/' && plain_from(s, 8)
    })
}

/// The characters that never stand in an IRI: the space, the controls of ASCII and Latin-1, and some
/// delimiters.
pub open spec fn never_in_iri(c: char) -> bool {
    ||| c <= ' '
    ||| '\u{7f}' <= c <= '\u{9f}'
    ||| c == '<'
    ||| c == '>'
    ||| c == '"'
    ||| c == '{'
    ||| c == '}'
    ||| c == '|'
    ||| c == '\\'
    ||| c == '^'
    ||| c == '`'
}

/// Some character never stands in an IRI.
pub open spec fn holds_forbidden(s: Seq<char>) -> bool {
    exists|i: int| 0 <= i < s.len() && never_in_iri(#[trigger] s[i])
}

/// The last character is a slash, and a letter or digit stands before it.
pub open spec fn ends_in_segment(s: Seq<char>) -> bool {
    &&& s.len() >= 2
    &&& s.last() == '/'
    &&& ({
        ||| 'a' <= s[s.len() - 2] <= 'z'
        ||| 'A' <= s[s.len() - 2] <= 'Z'
        ||| '0' <= s[s.len() - 2] <= '9'
    })
}

/// Only unreserved characters, colons and slashes.
pub open spec fn plain_tail(s: Seq<char>) -> bool {
    forall|i: int| 0 <= i < s.len() ==> unreserved(#[trigger] s[i]) || s[i] == ':' || s[i] == '/'
}

/// `oxrdf::NamedNode::new`: whether it takes the text. Which texts these are takes the grammar of
/// RFC 3987 to say; besides the name of the answer four plain cases are claimed. Behind `urn:` the
/// parser reads a path, in which unreserved characters and colons may stand. A plain `http` IRI is
/// a host, a path and at most a fragment. Behind a segment of a valid IRI the parser is in a path, a
/// query or a fragment, all of which may go on with unreserved characters, colons and slashes. And
/// wherever the parser is, it takes no forbidden character.
#[verifier::external_body]
fn named_node_accepts(iri: &str) -> (ok: bool)
    ensures
        ok == iri_valid(iri@),
        plain_urn(iri@) ==> ok,
        plain_http(iri@) ==> ok,
        forall|base: Seq<char>, tail: Seq<char>|
            #![trigger iri_valid(base), plain_tail(tail)]
            iri@ == base + tail && iri_valid(base) && ends_in_segment(base) && plain_tail(tail)
                ==> ok,
        holds_forbidden(iri@) ==> !ok,
{
    oxrdf::NamedNode::new(iri).is_ok()
}

/// A resource with an IRI. What is no IRI cannot be made into one.
#[derive(Debug)]
pub struct NamedNode {
    pub(crate) iri: String,
}

impl View for NamedNode {
    type V = Seq<char>;

    closed spec fn view(&self) -> Seq<char> {
        self.iri@
    }
}

impl NamedNode {
    #[verifier::type_invariant]
    spec fn inv(self) -> bool {
        iri_valid(self@)
    }

    /// The resource with this IRI, if the text is one.
    pub fn new(iri: String) -> (node: Option<NamedNode>)
        ensures
            match node {
                Some(n) => iri_valid(iri@) && n@ == iri@,
                None => !iri_valid(iri@),
            },
            plain_urn(iri@) ==> node is Some,
            plain_http(iri@) ==> node is Some,
            forall|base: Seq<char>, tail: Seq<char>|
                #![trigger iri_valid(base), plain_tail(tail)]
                iri@ == base + tail && iri_valid(base) && ends_in_segment(base) && plain_tail(tail)
                    ==> node is Some,
            holds_forbidden(iri@) ==> node is None,
    {
        if named_node_accepts(iri.as_str()) {
            Some(NamedNode { iri })
        } else {
            None
        }
    }

    /// The IRI.
    pub fn as_str(&self) -> (s: &str)
        ensures
            s@ == self@,
            iri_valid(s@),
    {
        proof {
            use_type_invariant(self);
        }
        self.iri.as_str()
    }

    /// The same resource once more.
    pub fn copy(&self) -> (node: NamedNode)
        ensures
            node@ == self@,
    {
        proof {
            use_type_invariant(self);
        }
        NamedNode { iri: self.iri.clone() }
    }
}

// ---- Blank nodes ----

/// Whether `oxrdf::BlankNode::new` takes a text as an identifier.
pub uninterp spec fn blank_id_valid(s: Seq<char>) -> bool;

/// A letter of the ASCII alphabet first, and then only such letters, ASCII digits and hyphens.
pub open spec fn plain_label(s: Seq<char>) -> bool {
    &&& s.len() > 0
    &&& ('a' <= s[0] <= 'z' || 'A' <= s[0] <= 'Z')
    &&& forall|i: int|
        0 <= i < s.len() ==> ('a' <= #[trigger] s[i] <= 'z' || 'A' <= s[i] <= 'Z' || '0' <= s[i]
            <= '9' || s[i] == '-')
}

/// `oxrdf::BlankNode::new`: whether it takes the text. Which texts these are takes the character
/// ranges of the Turtle grammar to say; besides the name of the answer it is claimed that plain
/// labels are taken.
#[verifier::external_body]
fn blank_node_accepts(id: &str) -> (ok: bool)
    ensures
        ok == blank_id_valid(id@),
        plain_label(id@) ==> ok,
{
    oxrdf::BlankNode::new(id).is_ok()
}

/// A label that can stand for a blank node in both formats. `oxrdf::BlankNode::new` takes a colon,
/// but the grammar of Turtle does not.
pub open spec fn label_valid(s: Seq<char>) -> bool {
    blank_id_valid(s) && !holds_any(s, ":"@)
}

/// A resource without an IRI. What is no label of a blank node cannot be made into one.
#[derive(Debug)]
pub struct BlankNode {
    pub(crate) id: String,
}

impl View for BlankNode {
    type V = Seq<char>;

    closed spec fn view(&self) -> Seq<char> {
        self.id@
    }
}

impl BlankNode {
    #[verifier::type_invariant]
    spec fn inv(self) -> bool {
        label_valid(self@)
    }

    /// The blank node with this label, if the text is one.
    pub fn new(id: String) -> (node: Option<BlankNode>)
        ensures
            match node {
                Some(n) => label_valid(id@) && n@ == id@,
                None => !label_valid(id@),
            },
            plain_label(id@) ==> node is Some,
    {
        proof {
            reveal_strlit(":");
        }
        if blank_node_accepts(id.as_str()) && !contains_any(id.as_str(), ":") {
            Some(BlankNode { id })
        } else {
            None
        }
    }
}

// ---- Literals ----

/// A datatype of literals without a language: a plain IRI.
pub open spec fn datatype_valid(s: Seq<char>) -> bool {
    plain_http(s) && s != rdf_iri("langString"@)
}

/// A value with the IRI of its datatype.
#[derive(Debug)]
pub struct Literal {
    pub(crate) value: String,
    pub(crate) datatype: &'static str,
}

/// What a literal is.
#[verifier::ext_equal]
pub struct LiteralView {
    pub value: Seq<char>,
    pub datatype: Seq<char>,
}

impl View for Literal {
    type V = LiteralView;

    closed spec fn view(&self) -> LiteralView {
        LiteralView { value: self.value@, datatype: self.datatype@ }
    }
}

impl Literal {
    #[verifier::type_invariant]
    spec fn inv(self) -> bool {
        datatype_valid(self@.datatype)
    }

    /// The literal with this value and datatype.
    pub(crate) fn new(value: String, datatype: &'static str) -> (l: Literal)
        requires
            datatype_valid(datatype@),
        ensures
            l@ == typed(value@, datatype@),
    {
        Literal { value, datatype }
    }

    /// The value.
    pub fn value(&self) -> (s: &str)
        ensures
            s@ == self@.value,
    {
        self.value.as_str()
    }

    /// The IRI of the datatype.
    pub fn datatype(&self) -> (s: &'static str)
        ensures
            s@ == self@.datatype,
            datatype_valid(s@),
    {
        proof {
            use_type_invariant(self);
        }
        self.datatype
    }
}

/// The literal with this value and datatype.
pub open spec fn typed(value: Seq<char>, datatype: Seq<char>) -> LiteralView {
    LiteralView { value, datatype }
}

// ---- Triples ----

/// The subject of a triple.
pub enum SubjectRef<'a> {
    NamedNode(&'a NamedNode),
    BlankNode(&'a BlankNode),
}

/// The object of a triple.
pub enum TermRef<'a> {
    NamedNode(&'a NamedNode),
    BlankNode(&'a BlankNode),
    Literal(&'a Literal),
}

/// What a statement says of its subject.
#[derive(Debug)]
pub enum Term {
    NamedNode(NamedNode),
    Literal(Literal),
}

/// A triple of borrowed terms.
pub struct TripleRef<'a> {
    pub subject: SubjectRef<'a>,
    pub predicate: &'a NamedNode,
    pub object: TermRef<'a>,
}

/// What the subject of a triple is.
pub enum SubjectView {
    Named(Seq<char>),
    Blank(Seq<char>),
}

/// What the object of a triple is.
pub enum TermView {
    Named(Seq<char>),
    Blank(Seq<char>),
    Literal(LiteralView),
}

/// What a triple is.
pub struct TripleView {
    pub subject: SubjectView,
    pub predicate: Seq<char>,
    pub object: TermView,
}

impl<'a> View for SubjectRef<'a> {
    type V = SubjectView;

    open spec fn view(&self) -> SubjectView {
        match *self {
            SubjectRef::NamedNode(n) => SubjectView::Named(n@),
            SubjectRef::BlankNode(b) => SubjectView::Blank(b@),
        }
    }
}

impl<'a> View for TermRef<'a> {
    type V = TermView;

    open spec fn view(&self) -> TermView {
        match *self {
            TermRef::NamedNode(n) => TermView::Named(n@),
            TermRef::BlankNode(b) => TermView::Blank(b@),
            TermRef::Literal(l) => TermView::Literal(l@),
        }
    }
}

impl<'a> View for TripleRef<'a> {
    type V = TripleView;

    open spec fn view(&self) -> TripleView {
        TripleView { subject: self.subject@, predicate: self.predicate@, object: self.object@ }
    }
}

impl View for Term {
    type V = TermView;

    open spec fn view(&self) -> TermView {
        match *self {
            Term::NamedNode(n) => TermView::Named(n@),
            Term::Literal(l) => TermView::Literal(l@),
        }
    }
}

impl Term {
    /// The term as the object of a triple.
    pub fn as_ref(&self) -> (t: TermRef<'_>)
        ensures
            t@ == self@,
    {
        match self {
            Term::NamedNode(n) => TermRef::NamedNode(n),
            Term::Literal(l) => TermRef::Literal(l),
        }
    }
}

/// `s p o`, where `o` is a resource.
pub open spec fn link(s: Seq<char>, p: Seq<char>, o: Seq<char>) -> TripleView {
    TripleView { subject: SubjectView::Named(s), predicate: p, object: TermView::Named(o) }
}

/// `s p o`, where `o` is a literal.
pub open spec fn says(s: Seq<char>, p: Seq<char>, o: LiteralView) -> TripleView {
    TripleView { subject: SubjectView::Named(s), predicate: p, object: TermView::Literal(o) }
}

/// `s p o`, where `s` has an IRI.
pub open spec fn states(s: Seq<char>, p: Seq<char>, o: TermView) -> TripleView {
    TripleView { subject: SubjectView::Named(s), predicate: p, object: o }
}

/// `s p o`, where `s` is a blank node.
pub open spec fn blank_states(s: Seq<char>, p: Seq<char>, o: TermView) -> TripleView {
    TripleView { subject: SubjectView::Blank(s), predicate: p, object: o }
}

/// A resource with a valid IRI, or a blank node with a valid label.
pub open spec fn subject_valid(s: SubjectView) -> bool {
    match s {
        SubjectView::Named(iri) => iri_valid(iri),
        SubjectView::Blank(id) => label_valid(id),
    }
}

/// A resource with a valid IRI, a blank node with a valid label, or a literal with a valid datatype.
pub open spec fn term_valid(t: TermView) -> bool {
    match t {
        TermView::Named(iri) => iri_valid(iri),
        TermView::Blank(id) => label_valid(id),
        TermView::Literal(l) => datatype_valid(l.datatype),
    }
}

/// All three terms of a triple are valid.
pub open spec fn triple_valid(t: TripleView) -> bool {
    subject_valid(t.subject) && iri_valid(t.predicate) && term_valid(t.object)
}

impl<'a> TripleRef<'a> {
    /// Terms that could be made are valid.
    pub(crate) fn show_valid(&self)
        ensures
            triple_valid(self@),
    {
        match &self.subject {
            SubjectRef::NamedNode(n) => {
                proof {
                    use_type_invariant(*n);
                }
            },
            SubjectRef::BlankNode(b) => {
                proof {
                    use_type_invariant(*b);
                }
            },
        }
        proof {
            use_type_invariant(self.predicate);
        }
        match &self.object {
            TermRef::NamedNode(n) => {
                proof {
                    use_type_invariant(*n);
                }
            },
            TermRef::BlankNode(b) => {
                proof {
                    use_type_invariant(*b);
                }
            },
            TermRef::Literal(l) => {
                proof {
                    use_type_invariant(*l);
                }
            },
        }
    }
}

// ---- Vocabularies ----

pub const RDF: &'static str = "http://www.w3.org/1999/02/22-rdf-syntax-ns#";

pub const RDFS: &'static str = "http://www.w3.org/2000/01/rdf-schema#";

pub const OWL: &'static str = "http://www.w3.org/2002/07/owl#";

pub const XSD: &'static str = "http://www.w3.org/2001/XMLSchema#";

pub const PROV: &'static str = "http://www.w3.org/ns/prov#";

pub const SCHEMA: &'static str = "https://schema.org/";

/// Terms for which no standard vocabulary has a word. A URN, so that it promises no address.
pub const UTOPIA: &'static str = "urn:utopia:ns:";

pub const XSD_STRING: &'static str = "http://www.w3.org/2001/XMLSchema#string";

pub const XSD_BOOLEAN: &'static str = "http://www.w3.org/2001/XMLSchema#boolean";

pub const XSD_INTEGER: &'static str = "http://www.w3.org/2001/XMLSchema#integer";

pub const XSD_DECIMAL: &'static str = "http://www.w3.org/2001/XMLSchema#decimal";

pub const XSD_DATE: &'static str = "http://www.w3.org/2001/XMLSchema#date";

pub const XSD_DATE_TIME: &'static str = "http://www.w3.org/2001/XMLSchema#dateTime";

pub const XSD_G_YEAR: &'static str = "http://www.w3.org/2001/XMLSchema#gYear";

pub const XSD_G_YEAR_MONTH: &'static str = "http://www.w3.org/2001/XMLSchema#gYearMonth";

/// The IRI of a term of the RDF vocabulary.
pub open spec fn rdf_iri(term: Seq<char>) -> Seq<char> {
    RDF@ + term
}

/// The IRI of a term of RDF Schema.
pub open spec fn rdfs_iri(term: Seq<char>) -> Seq<char> {
    RDFS@ + term
}

/// The IRI of a term of OWL.
pub open spec fn owl_iri(term: Seq<char>) -> Seq<char> {
    OWL@ + term
}

/// The IRI of a term of the provenance ontology.
pub open spec fn prov_iri(term: Seq<char>) -> Seq<char> {
    PROV@ + term
}

/// The IRI of a term of schema.org.
pub open spec fn schema_iri(term: Seq<char>) -> Seq<char> {
    SCHEMA@ + term
}

/// The IRI of a term of the ledger's own vocabulary.
pub open spec fn utopia_iri(term: Seq<char>) -> Seq<char> {
    UTOPIA@ + term
}

/// Only unreserved characters.
#[verifier::opaque]
pub open spec fn plain_term(t: Seq<char>) -> bool {
    forall|i: int| 0 <= i < t.len() ==> unreserved(#[trigger] t[i])
}

/// A term of the RDF vocabulary.
pub fn rdf(term: &str) -> (node: NamedNode)
    requires
        iri_valid(rdf_iri(term@)) || plain_term(term@),
    ensures
        node@ == rdf_iri(term@),
        iri_valid(node@),
{
    proof {
        lemma_namespaces_plain();
        if plain_term(term@) {
            lemma_http_term(RDF@, term@);
        }
    }
    NamedNode::new(join2(RDF, term)).unwrap()
}

/// A term of RDF Schema.
pub fn rdfs(term: &str) -> (node: NamedNode)
    requires
        iri_valid(rdfs_iri(term@)) || plain_term(term@),
    ensures
        node@ == rdfs_iri(term@),
        iri_valid(node@),
{
    proof {
        lemma_namespaces_plain();
        if plain_term(term@) {
            lemma_http_term(RDFS@, term@);
        }
    }
    NamedNode::new(join2(RDFS, term)).unwrap()
}

/// A term of OWL.
pub fn owl(term: &str) -> (node: NamedNode)
    requires
        iri_valid(owl_iri(term@)) || plain_term(term@),
    ensures
        node@ == owl_iri(term@),
        iri_valid(node@),
{
    proof {
        lemma_namespaces_plain();
        if plain_term(term@) {
            lemma_http_term(OWL@, term@);
        }
    }
    NamedNode::new(join2(OWL, term)).unwrap()
}

/// A term of the provenance ontology.
pub fn prov(term: &str) -> (node: NamedNode)
    requires
        iri_valid(prov_iri(term@)) || plain_term(term@),
    ensures
        node@ == prov_iri(term@),
        iri_valid(node@),
{
    proof {
        lemma_namespaces_plain();
        if plain_term(term@) {
            lemma_http_term(PROV@, term@);
        }
    }
    NamedNode::new(join2(PROV, term)).unwrap()
}

/// A term of schema.org.
pub fn schema(term: &str) -> (node: NamedNode)
    requires
        iri_valid(schema_iri(term@)) || plain_term(term@),
    ensures
        node@ == schema_iri(term@),
        iri_valid(node@),
{
    proof {
        lemma_namespaces_plain();
        if plain_term(term@) {
            lemma_http_term(SCHEMA@, term@);
        }
    }
    NamedNode::new(join2(SCHEMA, term)).unwrap()
}

/// A term of the ledger's own vocabulary.
pub fn utopia(term: &str) -> (node: NamedNode)
    requires
        iri_valid(utopia_iri(term@)) || plain_term(term@),
    ensures
        node@ == utopia_iri(term@),
        iri_valid(node@),
{
    proof {
        lemma_namespaces_plain();
        if plain_term(term@) {
            lemma_urn_term(UTOPIA@, term@);
        }
    }
    NamedNode::new(join2(UTOPIA, term)).unwrap()
}

proof fn lemma_plain_from_joined(a: Seq<char>, t: Seq<char>, i: int)
    requires
        0 <= i,
        plain_from(a, i),
        plain_term(t),
    ensures
        plain_from(a + t, i),
    decreases a.len() + t.len() - i,
{
    reveal(plain_term);
    let s = a + t;
    if i < a.len() {
        assert(s[i] == a[i]);
        if a[i] == '#' {
            assert forall|j: int| i < j < s.len() implies unreserved(#[trigger] s[j]) by {
                if j < a.len() {
                    assert(s[j] == a[j]);
                } else {
                    assert(s[j] == t[j - a.len()]);
                }
            }
        } else {
            lemma_plain_from_joined(a, t, i + 1);
        }
    } else if i < s.len() {
        assert(s[i] == t[i - a.len()]);
        lemma_plain_from_joined(a, t, i + 1);
    }
}

proof fn lemma_plain_from_clean(s: Seq<char>, i: int)
    requires
        plain_from(s, i),
    ensures
        forall|j: int| i <= j < s.len() ==> !never_in_iri(#[trigger] s[j]),
    decreases s.len() - i,
{
    if i < s.len() && s[i] != '#' {
        lemma_plain_from_clean(s, i + 1);
    }
}

/// A plain IRI holds no forbidden character.
pub proof fn lemma_plain_http_clean(s: Seq<char>)
    requires
        plain_http(s),
    ensures
        !holds_forbidden(s),
{
    let from: int = if s[4] == ':' {
        7
    } else {
        8
    };
    lemma_plain_from_clean(s, from);
    assert forall|j: int| 0 <= j < s.len() implies !never_in_iri(#[trigger] s[j]) by {
        if j < from {
            assert(j == 0 || j == 1 || j == 2 || j == 3 || j == 4 || j == 5 || j == 6 || j == 7);
        }
    }
}

/// A plain term behind a plain `http` namespace is a plain IRI.
pub proof fn lemma_http_term(namespace: Seq<char>, t: Seq<char>)
    requires
        plain_http(namespace),
        plain_term(t),
    ensures
        plain_http(namespace + t),
{
    if namespace[4] == ':' {
        lemma_plain_from_joined(namespace, t, 7);
    } else {
        lemma_plain_from_joined(namespace, t, 8);
    }
}

proof fn lemma_urn_term(namespace: Seq<char>, t: Seq<char>)
    requires
        plain_urn(namespace),
        plain_term(t),
    ensures
        plain_urn(namespace + t),
{
    reveal(plain_term);
    let s = namespace + t;
    assert forall|i: int| 4 <= i < s.len() implies unreserved(#[trigger] s[i]) || s[i] == ':' by {
        if i < namespace.len() {
            assert(s[i] == namespace[i]);
        } else {
            assert(s[i] == t[i - namespace.len()]);
        }
    }
}

/// The namespaces of the vocabularies are plain IRIs.
pub proof fn lemma_namespaces_plain()
    ensures
        plain_http(RDF@),
        plain_http(RDFS@),
        plain_http(OWL@),
        plain_http(XSD@),
        plain_http(PROV@),
        plain_http(SCHEMA@),
        plain_urn(UTOPIA@),
{
    reveal_strlit("http://www.w3.org/1999/02/22-rdf-syntax-ns#");
    reveal_strlit("http://www.w3.org/2000/01/rdf-schema#");
    reveal_strlit("http://www.w3.org/2002/07/owl#");
    reveal_strlit("http://www.w3.org/2001/XMLSchema#");
    reveal_strlit("http://www.w3.org/ns/prov#");
    reveal_strlit("https://schema.org/");
    reveal_strlit("urn:utopia:ns:");
    assert(plain_from(RDF@, 7)) by {
        reveal_with_fuel(plain_from, 40);
    }
    assert(plain_from(RDFS@, 7)) by {
        reveal_with_fuel(plain_from, 40);
    }
    assert(plain_from(OWL@, 7)) by {
        reveal_with_fuel(plain_from, 40);
    }
    assert(plain_from(XSD@, 7)) by {
        reveal_with_fuel(plain_from, 40);
    }
    assert(plain_from(PROV@, 7)) by {
        reveal_with_fuel(plain_from, 40);
    }
    assert(plain_from(SCHEMA@, 8)) by {
        reveal_with_fuel(plain_from, 40);
    }
    assert forall|i: int| 4 <= i < UTOPIA@.len() implies unreserved(#[trigger] UTOPIA@[i])
        || UTOPIA@[i] == ':' by {
        assert(i == 4 || i == 5 || i == 6 || i == 7 || i == 8 || i == 9 || i == 10 || i == 11 || i
            == 12 || i == 13);
    }
}

} // verus!
