//! What triples and the terms of the vocabularies are, and that terms are told apart.
use crate::term::{
    blank_states, link, owl_iri, prov_iri, rdf_iri, rdfs_iri, says, schema_iri, states, utopia_iri,
    LiteralView, SubjectView, TermView, TripleView, OWL, PROV, RDF, RDFS, SCHEMA, UTOPIA,
};
use vstd::prelude::*;
use vstd::string::*;

verus! {

/// The IRI of a term is the namespace of its vocabulary and the term.
pub proof fn terms_stand_in_their_namespaces(term: Seq<char>)
    ensures
        rdf_iri(term) == "http://www.w3.org/1999/02/22-rdf-syntax-ns#"@ + term,
        rdfs_iri(term) == "http://www.w3.org/2000/01/rdf-schema#"@ + term,
        owl_iri(term) == "http://www.w3.org/2002/07/owl#"@ + term,
        prov_iri(term) == "http://www.w3.org/ns/prov#"@ + term,
        schema_iri(term) == "https://schema.org/"@ + term,
        utopia_iri(term) == "urn:utopia:ns:"@ + term,
{
}

/// Two terms of one vocabulary have the same IRI only if they are the same, and terms of different
/// vocabularies never have.
pub proof fn terms_are_told_apart()
    ensures
        forall|a: Seq<char>, b: Seq<char>| #[trigger] rdf_iri(a) == #[trigger] rdf_iri(b) ==> a == b,
        forall|a: Seq<char>, b: Seq<char>| #[trigger] rdfs_iri(a) == #[trigger] rdfs_iri(b) ==> a == b,
        forall|a: Seq<char>, b: Seq<char>| #[trigger] owl_iri(a) == #[trigger] owl_iri(b) ==> a == b,
        forall|a: Seq<char>, b: Seq<char>| #[trigger] prov_iri(a) == #[trigger] prov_iri(b) ==> a == b,
        forall|a: Seq<char>, b: Seq<char>| #[trigger] schema_iri(a) == #[trigger] schema_iri(b) ==> a == b,
        forall|a: Seq<char>, b: Seq<char>| #[trigger] utopia_iri(a) == #[trigger] utopia_iri(b) ==> a == b,
        forall|a: Seq<char>, b: Seq<char>| #[trigger] rdf_iri(a) != #[trigger] rdfs_iri(b),
        forall|a: Seq<char>, b: Seq<char>| #[trigger] rdf_iri(a) != #[trigger] owl_iri(b),
        forall|a: Seq<char>, b: Seq<char>| #[trigger] rdf_iri(a) != #[trigger] prov_iri(b),
        forall|a: Seq<char>, b: Seq<char>| #[trigger] rdf_iri(a) != #[trigger] schema_iri(b),
        forall|a: Seq<char>, b: Seq<char>| #[trigger] rdf_iri(a) != #[trigger] utopia_iri(b),
        forall|a: Seq<char>, b: Seq<char>| #[trigger] rdfs_iri(a) != #[trigger] owl_iri(b),
        forall|a: Seq<char>, b: Seq<char>| #[trigger] rdfs_iri(a) != #[trigger] prov_iri(b),
        forall|a: Seq<char>, b: Seq<char>| #[trigger] rdfs_iri(a) != #[trigger] schema_iri(b),
        forall|a: Seq<char>, b: Seq<char>| #[trigger] rdfs_iri(a) != #[trigger] utopia_iri(b),
        forall|a: Seq<char>, b: Seq<char>| #[trigger] owl_iri(a) != #[trigger] prov_iri(b),
        forall|a: Seq<char>, b: Seq<char>| #[trigger] owl_iri(a) != #[trigger] schema_iri(b),
        forall|a: Seq<char>, b: Seq<char>| #[trigger] owl_iri(a) != #[trigger] utopia_iri(b),
        forall|a: Seq<char>, b: Seq<char>| #[trigger] prov_iri(a) != #[trigger] schema_iri(b),
        forall|a: Seq<char>, b: Seq<char>| #[trigger] prov_iri(a) != #[trigger] utopia_iri(b),
        forall|a: Seq<char>, b: Seq<char>| #[trigger] schema_iri(a) != #[trigger] utopia_iri(b),
{
    reveal_strlit("http://www.w3.org/1999/02/22-rdf-syntax-ns#");
    reveal_strlit("http://www.w3.org/2000/01/rdf-schema#");
    reveal_strlit("http://www.w3.org/2002/07/owl#");
    reveal_strlit("http://www.w3.org/ns/prov#");
    reveal_strlit("https://schema.org/");
    reveal_strlit("urn:utopia:ns:");
    assert forall|a: Seq<char>, b: Seq<char>| #[trigger] rdf_iri(a) == #[trigger] rdf_iri(b) implies a
        == b by {
        assert(rdf_iri(a).skip(RDF@.len() as int) =~= a);
        assert(rdf_iri(b).skip(RDF@.len() as int) =~= b);
    }
    assert forall|a: Seq<char>, b: Seq<char>| #[trigger] rdfs_iri(a) == #[trigger] rdfs_iri(b) implies a
        == b by {
        assert(rdfs_iri(a).skip(RDFS@.len() as int) =~= a);
        assert(rdfs_iri(b).skip(RDFS@.len() as int) =~= b);
    }
    assert forall|a: Seq<char>, b: Seq<char>| #[trigger] owl_iri(a) == #[trigger] owl_iri(b) implies a
        == b by {
        assert(owl_iri(a).skip(OWL@.len() as int) =~= a);
        assert(owl_iri(b).skip(OWL@.len() as int) =~= b);
    }
    assert forall|a: Seq<char>, b: Seq<char>| #[trigger] prov_iri(a) == #[trigger] prov_iri(b) implies a
        == b by {
        assert(prov_iri(a).skip(PROV@.len() as int) =~= a);
        assert(prov_iri(b).skip(PROV@.len() as int) =~= b);
    }
    assert forall|a: Seq<char>, b: Seq<char>| #[trigger] schema_iri(a) == #[trigger] schema_iri(b) implies a
        == b by {
        assert(schema_iri(a).skip(SCHEMA@.len() as int) =~= a);
        assert(schema_iri(b).skip(SCHEMA@.len() as int) =~= b);
    }
    assert forall|a: Seq<char>, b: Seq<char>| #[trigger] utopia_iri(a) == #[trigger] utopia_iri(b) implies a
        == b by {
        assert(utopia_iri(a).skip(UTOPIA@.len() as int) =~= a);
        assert(utopia_iri(b).skip(UTOPIA@.len() as int) =~= b);
    }
    assert forall|a: Seq<char>, b: Seq<char>| #[trigger] rdf_iri(a) != #[trigger] rdfs_iri(b) by {
        assert(rdf_iri(a)[18] == RDF@[18]);
        assert(rdfs_iri(b)[18] == RDFS@[18]);
    }
    assert forall|a: Seq<char>, b: Seq<char>| #[trigger] rdf_iri(a) != #[trigger] owl_iri(b) by {
        assert(rdf_iri(a)[18] == RDF@[18]);
        assert(owl_iri(b)[18] == OWL@[18]);
    }
    assert forall|a: Seq<char>, b: Seq<char>| #[trigger] rdf_iri(a) != #[trigger] prov_iri(b) by {
        assert(rdf_iri(a)[18] == RDF@[18]);
        assert(prov_iri(b)[18] == PROV@[18]);
    }
    assert forall|a: Seq<char>, b: Seq<char>| #[trigger] rdf_iri(a) != #[trigger] schema_iri(b) by {
        assert(rdf_iri(a)[4] == RDF@[4]);
        assert(schema_iri(b)[4] == SCHEMA@[4]);
    }
    assert forall|a: Seq<char>, b: Seq<char>| #[trigger] rdf_iri(a) != #[trigger] utopia_iri(b) by {
        assert(rdf_iri(a)[0] == RDF@[0]);
        assert(utopia_iri(b)[0] == UTOPIA@[0]);
    }
    assert forall|a: Seq<char>, b: Seq<char>| #[trigger] rdfs_iri(a) != #[trigger] owl_iri(b) by {
        assert(rdfs_iri(a)[21] == RDFS@[21]);
        assert(owl_iri(b)[21] == OWL@[21]);
    }
    assert forall|a: Seq<char>, b: Seq<char>| #[trigger] rdfs_iri(a) != #[trigger] prov_iri(b) by {
        assert(rdfs_iri(a)[18] == RDFS@[18]);
        assert(prov_iri(b)[18] == PROV@[18]);
    }
    assert forall|a: Seq<char>, b: Seq<char>| #[trigger] rdfs_iri(a) != #[trigger] schema_iri(b) by {
        assert(rdfs_iri(a)[4] == RDFS@[4]);
        assert(schema_iri(b)[4] == SCHEMA@[4]);
    }
    assert forall|a: Seq<char>, b: Seq<char>| #[trigger] rdfs_iri(a) != #[trigger] utopia_iri(b) by {
        assert(rdfs_iri(a)[0] == RDFS@[0]);
        assert(utopia_iri(b)[0] == UTOPIA@[0]);
    }
    assert forall|a: Seq<char>, b: Seq<char>| #[trigger] owl_iri(a) != #[trigger] prov_iri(b) by {
        assert(owl_iri(a)[18] == OWL@[18]);
        assert(prov_iri(b)[18] == PROV@[18]);
    }
    assert forall|a: Seq<char>, b: Seq<char>| #[trigger] owl_iri(a) != #[trigger] schema_iri(b) by {
        assert(owl_iri(a)[4] == OWL@[4]);
        assert(schema_iri(b)[4] == SCHEMA@[4]);
    }
    assert forall|a: Seq<char>, b: Seq<char>| #[trigger] owl_iri(a) != #[trigger] utopia_iri(b) by {
        assert(owl_iri(a)[0] == OWL@[0]);
        assert(utopia_iri(b)[0] == UTOPIA@[0]);
    }
    assert forall|a: Seq<char>, b: Seq<char>| #[trigger] prov_iri(a) != #[trigger] schema_iri(b) by {
        assert(prov_iri(a)[4] == PROV@[4]);
        assert(schema_iri(b)[4] == SCHEMA@[4]);
    }
    assert forall|a: Seq<char>, b: Seq<char>| #[trigger] prov_iri(a) != #[trigger] utopia_iri(b) by {
        assert(prov_iri(a)[0] == PROV@[0]);
        assert(utopia_iri(b)[0] == UTOPIA@[0]);
    }
    assert forall|a: Seq<char>, b: Seq<char>| #[trigger] schema_iri(a) != #[trigger] utopia_iri(b) by {
        assert(schema_iri(a)[0] == SCHEMA@[0]);
        assert(utopia_iri(b)[0] == UTOPIA@[0]);
    }
}

/// A triple has its subject, its predicate and its object in their places.
pub proof fn triples_have_their_terms_in_place(
    s: Seq<char>,
    p: Seq<char>,
    o: Seq<char>,
    l: LiteralView,
    t: TermView,
)
    ensures
        link(s, p, o) == (TripleView {
            subject: SubjectView::Named(s),
            predicate: p,
            object: TermView::Named(o),
        }),
        says(s, p, l) == (TripleView {
            subject: SubjectView::Named(s),
            predicate: p,
            object: TermView::Literal(l),
        }),
        states(s, p, t) == (TripleView { subject: SubjectView::Named(s), predicate: p, object: t }),
        blank_states(s, p, t) == (TripleView {
            subject: SubjectView::Blank(s),
            predicate: p,
            object: t,
        }),
{
}

} // verus!
