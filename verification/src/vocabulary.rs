//! What an export looks up again and again: the IRIs of classes and relations, and the declared
//! types of attributes.
use crate::names::Names;
use crate::rows::{ExportClass, ExportRelation};
use crate::term::{iri_valid, NamedNode};
use crate::text::{borrowed, opt_str, opt_text};
use crate::uuid::Uuid;
use vstd::prelude::*;

verus! {

/// The classes and relations of a knowledge base.
#[derive(Debug)]
pub struct Vocabulary {
    pub classes: Vec<(Uuid, NamedNode)>,
    /// Identifier, IRI, declared type of the values and unit.
    pub relations: Vec<(Uuid, NamedNode, Option<String>, Option<String>)>,
}

/// The first class with this identifier.
pub open spec fn class_in(classes: Seq<(Uuid, NamedNode)>, id: Uuid) -> Option<Seq<char>>
    decreases classes.len(),
{
    if classes.len() == 0 {
        None
    } else if classes[0].0 == id {
        Some(classes[0].1@)
    } else {
        class_in(classes.skip(1), id)
    }
}

/// What is known of a relation.
pub struct RelationView {
    pub iri: Seq<char>,
    pub datatype: Option<Seq<char>>,
    pub unit: Option<Seq<char>>,
}

/// The first relation with this identifier.
pub open spec fn relation_in(
    relations: Seq<(Uuid, NamedNode, Option<String>, Option<String>)>,
    id: Uuid,
) -> Option<RelationView>
    decreases relations.len(),
{
    if relations.len() == 0 {
        None
    } else if relations[0].0 == id {
        Some(
            RelationView {
                iri: relations[0].1@,
                datatype: opt_text(relations[0].2),
                unit: opt_text(relations[0].3),
            },
        )
    } else {
        relation_in(relations.skip(1), id)
    }
}

impl Vocabulary {
    /// The IRI of a class.
    pub open spec fn class_iri(self, id: Uuid) -> Option<Seq<char>> {
        class_in(self.classes@, id)
    }

    /// The IRI of a relation.
    pub open spec fn relation_iri(self, id: Uuid) -> Option<Seq<char>> {
        match relation_in(self.relations@, id) {
            Some(r) => Some(r.iri),
            None => None,
        }
    }

    /// The declared type of a relation's values.
    pub open spec fn datatype(self, id: Uuid) -> Option<Seq<char>> {
        match relation_in(self.relations@, id) {
            Some(r) => r.datatype,
            None => None,
        }
    }

    /// The unit of a relation's values.
    pub open spec fn unit(self, id: Uuid) -> Option<Seq<char>> {
        match relation_in(self.relations@, id) {
            Some(r) => r.unit,
            None => None,
        }
    }

    /// The IRI of a class.
    pub fn class(&self, id: Uuid) -> (node: Option<&NamedNode>)
        ensures
            match node {
                Some(n) => self.class_iri(id) == Some(n@),
                None => self.class_iri(id) is None,
            },
    {
        let mut i: usize = 0;
        proof {
            assert(self.classes@.skip(0) =~= self.classes@);
        }
        while i < self.classes.len()
            invariant
                i <= self.classes@.len(),
                class_in(self.classes@, id) == class_in(self.classes@.skip(i as int), id),
            decreases self.classes@.len() - i,
        {
            proof {
                assert(self.classes@.skip(i as int).skip(1) =~= self.classes@.skip(i + 1));
            }
            if self.classes[i].0 == id {
                return Some(&self.classes[i].1);
            }
            i += 1;
        }
        None
    }

    fn position(&self, id: Uuid) -> (at: Option<usize>)
        ensures
            match at {
                Some(i) => i < self.relations@.len() && relation_in(self.relations@, id) == Some(
                    RelationView {
                        iri: self.relations@[i as int].1@,
                        datatype: opt_text(self.relations@[i as int].2),
                        unit: opt_text(self.relations@[i as int].3),
                    },
                ),
                None => relation_in(self.relations@, id) is None,
            },
    {
        let mut i: usize = 0;
        proof {
            assert(self.relations@.skip(0) =~= self.relations@);
        }
        while i < self.relations.len()
            invariant
                i <= self.relations@.len(),
                relation_in(self.relations@, id) == relation_in(self.relations@.skip(i as int), id),
            decreases self.relations@.len() - i,
        {
            proof {
                assert(self.relations@.skip(i as int).skip(1) =~= self.relations@.skip(i + 1));
            }
            if self.relations[i].0 == id {
                return Some(i);
            }
            i += 1;
        }
        None
    }

    /// The IRI of a relation.
    pub fn relation(&self, id: Uuid) -> (node: Option<&NamedNode>)
        ensures
            match node {
                Some(n) => self.relation_iri(id) == Some(n@),
                None => self.relation_iri(id) is None,
            },
    {
        match self.position(id) {
            Some(i) => Some(&self.relations[i].1),
            None => None,
        }
    }

    /// The declared type of a relation's values, and their unit.
    pub fn literal_shape(&self, id: Uuid) -> (shape: (Option<&str>, Option<&str>))
        ensures
            opt_str(shape.0) == self.datatype(id),
            opt_str(shape.1) == self.unit(id),
    {
        match self.position(id) {
            Some(i) => (borrowed(&self.relations[i].2), borrowed(&self.relations[i].3)),
            None => (None, None),
        }
    }
}

/// Every class and every relation has an IRI.
pub open spec fn all_named(
    names: Names,
    classes: Seq<ExportClass>,
    relations: Seq<ExportRelation>,
) -> bool {
    &&& forall|i: int| 0 <= i < classes.len() ==> iri_valid(#[trigger] names.class_iri(classes[i]))
    &&& forall|i: int|
        0 <= i < relations.len() ==> iri_valid(#[trigger] names.relation_iri(relations[i]))
}

/// A vocabulary holds these classes and relations under these names.
pub open spec fn vocabulary_of(
    vocab: Vocabulary,
    names: Names,
    classes: Seq<ExportClass>,
    relations: Seq<ExportRelation>,
) -> bool {
    &&& vocab.classes@.len() == classes.len()
    &&& forall|i: int|
        0 <= i < classes.len() ==> {
            &&& (#[trigger] vocab.classes@[i]).0 == classes[i].id
            &&& vocab.classes@[i].1@ == names.class_iri(classes[i])
        }
    &&& vocab.relations@.len() == relations.len()
    &&& forall|i: int|
        0 <= i < relations.len() ==> {
            &&& (#[trigger] vocab.relations@[i]).0 == relations[i].id
            &&& vocab.relations@[i].1@ == names.relation_iri(relations[i])
            &&& vocab.relations@[i].2 == relations[i].datatype
            &&& vocab.relations@[i].3 == relations[i].unit
        }
}

/// The vocabulary of these classes and relations, under these names.
pub fn vocabulary(
    names: &Names,
    classes: &[ExportClass],
    relations: &[ExportRelation],
) -> (vocab: Vocabulary)
    requires
        all_named(*names, classes@, relations@),
    ensures
        vocabulary_of(vocab, *names, classes@, relations@),
{
    let mut cs: Vec<(Uuid, NamedNode)> = Vec::new();
    let mut i: usize = 0;
    while i < classes.len()
        invariant
            i <= classes@.len(),
            cs@.len() == i,
            forall|j: int|
                0 <= j < classes@.len() ==> iri_valid(#[trigger] names.class_iri(classes@[j])),
            forall|j: int|
                0 <= j < i ==> {
                    &&& (#[trigger] cs@[j]).0 == classes@[j].id
                    &&& cs@[j].1@ == names.class_iri(classes@[j])
                },
        decreases classes@.len() - i,
    {
        let c: &ExportClass = &classes[i];
        cs.push((c.id, names.class(c)));
        i += 1;
    }
    let mut rs: Vec<(Uuid, NamedNode, Option<String>, Option<String>)> = Vec::new();
    let mut i: usize = 0;
    while i < relations.len()
        invariant
            i <= relations@.len(),
            rs@.len() == i,
            forall|j: int|
                0 <= j < relations@.len() ==> iri_valid(
                    #[trigger] names.relation_iri(relations@[j]),
                ),
            forall|j: int|
                0 <= j < i ==> {
                    &&& (#[trigger] rs@[j]).0 == relations@[j].id
                    &&& rs@[j].1@ == names.relation_iri(relations@[j])
                    &&& rs@[j].2 == relations@[j].datatype
                    &&& rs@[j].3 == relations@[j].unit
                },
        decreases relations@.len() - i,
    {
        let r: &ExportRelation = &relations[i];
        rs.push((r.id, names.relation(r), r.datatype.clone(), r.unit.clone()));
        i += 1;
    }
    Vocabulary { classes: cs, relations: rs }
}

} // verus!
