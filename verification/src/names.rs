//! How the IRIs of an export are made.
use crate::rows::{ExportClass, ExportRelation};
use crate::term::{
    ends_in_segment, holds_forbidden, iri_valid, lemma_plain_http_clean, never_in_iri, plain_http,
    plain_tail, plain_urn, unreserved, NamedNode,
};
use crate::text::{
    begins_with, contains_any, holds_any, int_text, join2, join3, nat_text, opt_str, signed_text,
    starts_with, trim, trim_end_slashes, trimmed, without_end_slashes,
};
use crate::uuid::{uuid_text, uuid_text_chars, Uuid};
use vstd::prelude::*;
use vstd::string::*;

verus! {

/// The names of one export. By default they are URNs: the same knowledge base exported twice must
/// give files that match, and an instance does not know the address it is published at. Whoever
/// knows it can give a base, and gets `http` IRIs.
pub struct Names {
    kb: Uuid,
    prefix: String,
    based: bool,
}

/// The characters that a base must not hold.
pub const BANNED_IN_BASE: &'static str = "<>\"{}|\\^` ";

/// The base that is given, without the white space around it. A blank one counts as none.
pub open spec fn base_given(base: Option<Seq<char>>) -> Option<Seq<char>> {
    match base {
        Some(b) => if trimmed(b).len() == 0 {
            None
        } else {
            Some(trimmed(b))
        },
        None => None,
    }
}

/// What the IRIs of a knowledge base begin with where no base is given.
pub open spec fn default_prefix(kb: Uuid) -> Seq<char> {
    "urn:utopia:kb:"@ + kb.text() + ":"@
}

/// What the IRIs of a knowledge base begin with under a base.
pub open spec fn based_prefix(base: Seq<char>, kb: Uuid) -> Seq<char> {
    without_end_slashes(base) + "/kb/"@ + kb.text() + "/"@
}

/// Only unreserved characters and colons.
pub open spec fn plain_id(s: Seq<char>) -> bool {
    forall|i: int| 0 <= i < s.len() ==> unreserved(#[trigger] s[i]) || s[i] == ':'
}

impl Names {
    /// The prefix is the beginning of an IRI, whatever plain text follows.
    #[verifier::type_invariant]
    spec fn inv(self) -> bool {
        if self.based {
            iri_valid(self.prefix@) && ends_in_segment(self.prefix@)
        } else {
            plain_urn(self.prefix@)
        }
    }

    /// The knowledge base that the export is of.
    pub closed spec fn kb(self) -> Uuid {
        self.kb
    }

    /// What every IRI of the export begins with.
    pub closed spec fn prefix(self) -> Seq<char> {
        self.prefix@
    }

    /// What stands between the kind of a row and its identifier: a slash under a base, a colon
    /// otherwise.
    pub closed spec fn sep(self) -> char {
        if self.based {
            '/'
        } else {
            ':'
        }
    }

    /// The separator is a colon or a slash.
    pub proof fn separator(self)
        ensures
            self.sep() == ':' || self.sep() == '/',
    {
    }

    /// The text of an IRI.
    pub open spec fn minted(self, kind: Seq<char>, id: Seq<char>) -> Seq<char> {
        (self.prefix() + kind).push(self.sep()) + id
    }

    /// The names for a knowledge base, with the base that is asked for. A base that no IRI can begin
    /// with is refused here, so that no name fails later; a plain base never is.
    pub fn new(kb_id: Uuid, base: Option<&str>) -> (names: Result<Names, String>)
        ensures
            match base_given(opt_str(base)) {
                None => names matches Ok(n) && n.kb() == kb_id && n.sep() == ':' && n.prefix()
                    == default_prefix(kb_id),
                Some(b) => if !begins_with(b, "http://"@) && !begins_with(b, "https://"@) {
                    names matches Err(e) && e@ == "`base` must be an http(s) IRI"@
                } else if holds_forbidden(b) || !iri_valid(based_prefix(b, kb_id)) {
                    names matches Err(e) && e@
                        == "`base` contains characters that cannot appear in an IRI"@
                } else {
                    names matches Ok(n) && n.kb() == kb_id && n.sep() == '/' && n.prefix()
                        == based_prefix(b, kb_id)
                },
            },
            match base_given(opt_str(base)) {
                None => true,
                Some(b) => (begins_with(b, "http://"@) || begins_with(b, "https://"@)) && plain_http(
                    based_prefix(b, kb_id),
                ) ==> names is Ok,
            },
    {
        let id: String = kb_id.to_string();
        proof {
            uuid_text_chars(kb_id.value);
        }
        let base: String = match base {
            Some(b) => trim(b),
            None => String::new(),
        };
        if base.as_str().is_empty() {
            let prefix: String = join3("urn:utopia:kb:", id.as_str(), ":");
            proof {
                lemma_urn_prefix(kb_id.value);
            }
            return Ok(Names { kb: kb_id, prefix, based: false });
        }
        if !(starts_with(base.as_str(), "http://") || starts_with(base.as_str(), "https://")) {
            return Err("`base` must be an http(s) IRI".to_string());
        }
        proof {
            lemma_banned_forbidden(base@);
            lemma_prefix_forbidden(base@, kb_id);
            if plain_http(based_prefix(base@, kb_id)) {
                lemma_plain_http_clean(based_prefix(base@, kb_id));
            }
        }
        if contains_any(base.as_str(), BANNED_IN_BASE) {
            return Err("`base` contains characters that cannot appear in an IRI".to_string());
        }
        let head: String = join2(trim_end_slashes(base.as_str()).as_str(), "/kb/");
        let prefix: String = join3(head.as_str(), id.as_str(), "/");
        proof {
            reveal_strlit("/");
            assert(prefix@[prefix@.len() - 2] == uuid_text(kb_id.value)[35]);
        }
        if NamedNode::new(prefix.clone()).is_none() {
            return Err("`base` contains characters that cannot appear in an IRI".to_string());
        }
        Ok(Names { kb: kb_id, prefix, based: true })
    }

    /// The knowledge base that the export is of.
    pub fn kb_id(&self) -> (kb: Uuid)
        ensures
            kb == self.kb(),
    {
        self.kb
    }

    fn mint_text(&self, kind: &str, id: &str) -> (out: String)
        ensures
            out@ == self.minted(kind@, id@),
    {
        let mut out: String = join2(self.prefix.as_str(), kind);
        out.push(
            if self.based {
                '/'
            } else {
                ':'
            },
        );
        out.concat(id)
    }

    /// The IRI of a row: its kind and its key behind the prefix.
    pub fn mint(&self, kind: &str, id: &str) -> (node: NamedNode)
        requires
            iri_valid(self.minted(kind@, id@)) || (plain_id(kind@) && plain_id(id@)),
        ensures
            node@ == self.minted(kind@, id@),
            iri_valid(node@),
    {
        let iri: String = self.mint_text(kind, id);
        proof {
            use_type_invariant(self);
            if plain_id(kind@) && plain_id(id@) {
                let tail = kind@.push(self.sep()) + id@;
                assert(iri@ =~= self.prefix@ + tail);
                if !self.based {
                    assert(plain_urn(iri@));
                } else {
                    assert(plain_tail(tail));
                }
            }
        }
        NamedNode::new(iri).unwrap()
    }

    pub open spec fn entity_iri(self, id: Uuid) -> Seq<char> {
        self.minted("entity"@, id.text())
    }

    pub open spec fn fact_iri(self, id: Uuid) -> Seq<char> {
        self.minted("fact"@, id.text())
    }

    pub open spec fn derived_iri(self, id: Uuid) -> Seq<char> {
        self.minted("derived"@, id.text())
    }

    pub open spec fn document_iri(self, id: Uuid) -> Seq<char> {
        self.minted("document"@, id.text())
    }

    pub open spec fn chunk_iri(self, id: Uuid) -> Seq<char> {
        self.minted("chunk"@, id.text())
    }

    pub open spec fn evidence_iri(self, fact_id: Uuid, chunk_id: Uuid) -> Seq<char> {
        self.minted("evidence"@, fact_id.text() + ":"@ + chunk_id.text())
    }

    pub open spec fn rule_iri(self, id: Uuid) -> Seq<char> {
        self.minted("rule"@, id.text())
    }

    pub open spec fn attribute_rule_iri(self, id: Uuid) -> Seq<char> {
        self.minted("arule"@, id.text())
    }

    pub open spec fn premise_iri(self, derived_id: Uuid, seq: i32) -> Seq<char> {
        self.minted("premise"@, derived_id.text() + ":"@ + int_text(seq as int))
    }

    pub open spec fn condition_iri(self, rule_id: Uuid, group_seq: i32, seq: i32) -> Seq<char> {
        self.minted(
            "condition"@,
            (rule_id.text() + ":"@ + int_text(group_seq as int)) + ":"@ + int_text(seq as int),
        )
    }

    pub open spec fn docversion_iri(self, document_id: Uuid, version: i32) -> Seq<char> {
        self.minted("docversion"@, document_id.text() + ":"@ + int_text(version as int))
    }

    pub open spec fn mention_iri(self, id: Uuid) -> Seq<char> {
        self.minted("timemention"@, id.text())
    }

    /// The IRI of something in the ontology: the one it was imported with, if it is one; else one
    /// made of its key, which is how the knowledge base itself calls it.
    pub open spec fn ontology_iri(
        self,
        kind: Seq<char>,
        iri: Option<String>,
        key: String,
    ) -> Seq<char,
    > {
        match iri {
            Some(i) => if iri_valid(i@) {
                i@
            } else {
                self.minted(kind, key@)
            },
            None => self.minted(kind, key@),
        }
    }

    pub open spec fn class_iri(self, c: ExportClass) -> Seq<char> {
        self.ontology_iri("class"@, c.iri, c.key)
    }

    pub open spec fn relation_iri(self, r: ExportRelation) -> Seq<char> {
        self.ontology_iri("relation"@, r.iri, r.key)
    }

    /// The IRI of an entity.
    pub fn entity(&self, id: Uuid) -> (node: NamedNode)
        ensures
            node@ == self.entity_iri(id),
            iri_valid(node@),
    {
        proof {
            lemma_kinds_plain();
            lemma_uuid_plain(id.value);
        }
        self.mint("entity", id.to_string().as_str())
    }

    /// The IRI of the statement that a fact is.
    pub fn fact(&self, id: Uuid) -> (node: NamedNode)
        ensures
            node@ == self.fact_iri(id),
            iri_valid(node@),
    {
        proof {
            lemma_kinds_plain();
            lemma_uuid_plain(id.value);
        }
        self.mint("fact", id.to_string().as_str())
    }

    /// The IRI of the statement that a derived fact is.
    pub fn derived(&self, id: Uuid) -> (node: NamedNode)
        ensures
            node@ == self.derived_iri(id),
            iri_valid(node@),
    {
        proof {
            lemma_kinds_plain();
            lemma_uuid_plain(id.value);
        }
        self.mint("derived", id.to_string().as_str())
    }

    /// The IRI of a document.
    pub fn document(&self, id: Uuid) -> (node: NamedNode)
        ensures
            node@ == self.document_iri(id),
            iri_valid(node@),
    {
        proof {
            lemma_kinds_plain();
            lemma_uuid_plain(id.value);
        }
        self.mint("document", id.to_string().as_str())
    }

    /// The IRI of a passage.
    pub fn chunk(&self, id: Uuid) -> (node: NamedNode)
        ensures
            node@ == self.chunk_iri(id),
            iri_valid(node@),
    {
        proof {
            lemma_kinds_plain();
            lemma_uuid_plain(id.value);
        }
        self.mint("chunk", id.to_string().as_str())
    }

    /// The IRI of a piece of evidence, whose key has two parts.
    pub fn evidence(&self, fact_id: Uuid, chunk_id: Uuid) -> (node: NamedNode)
        ensures
            node@ == self.evidence_iri(fact_id, chunk_id),
            iri_valid(node@),
    {
        proof {
            lemma_kinds_plain();
            lemma_uuid_plain(fact_id.value);
            lemma_uuid_plain(chunk_id.value);
        }
        let id: String = join3(fact_id.to_string().as_str(), ":", chunk_id.to_string().as_str());
        self.mint("evidence", id.as_str())
    }

    /// The IRI of an axiom.
    pub fn rule(&self, id: Uuid) -> (node: NamedNode)
        ensures
            node@ == self.rule_iri(id),
            iri_valid(node@),
    {
        proof {
            lemma_kinds_plain();
            lemma_uuid_plain(id.value);
        }
        self.mint("rule", id.to_string().as_str())
    }

    /// The IRI of a business rule. Axioms and business rules have names of their own, so that a
    /// derived fact says which kind of rule it comes from.
    pub fn attribute_rule(&self, id: Uuid) -> (node: NamedNode)
        ensures
            node@ == self.attribute_rule_iri(id),
            iri_valid(node@),
    {
        proof {
            lemma_kinds_plain();
            lemma_uuid_plain(id.value);
        }
        self.mint("arule", id.to_string().as_str())
    }

    /// The IRI of a premise: its place in a proof.
    pub fn premise(&self, derived_id: Uuid, seq: i32) -> (node: NamedNode)
        ensures
            node@ == self.premise_iri(derived_id, seq),
            iri_valid(node@),
    {
        proof {
            lemma_kinds_plain();
            lemma_uuid_plain(derived_id.value);
            lemma_int_plain(seq as int);
        }
        let id: String = join3(
            derived_id.to_string().as_str(),
            ":",
            signed_text(seq as i64).as_str(),
        );
        self.mint("premise", id.as_str())
    }

    /// The IRI of a premise of a business rule: its group and its place in the group.
    pub fn condition(&self, rule_id: Uuid, group_seq: i32, seq: i32) -> (node: NamedNode)
        ensures
            node@ == self.condition_iri(rule_id, group_seq, seq),
            iri_valid(node@),
    {
        proof {
            lemma_kinds_plain();
            lemma_uuid_plain(rule_id.value);
            lemma_int_plain(group_seq as int);
            lemma_int_plain(seq as int);
        }
        let head: String = join3(
            rule_id.to_string().as_str(),
            ":",
            signed_text(group_seq as i64).as_str(),
        );
        let id: String = join3(head.as_str(), ":", signed_text(seq as i64).as_str());
        self.mint("condition", id.as_str())
    }

    /// The IRI of a version of a document.
    pub fn docversion(&self, document_id: Uuid, version: i32) -> (node: NamedNode)
        ensures
            node@ == self.docversion_iri(document_id, version),
            iri_valid(node@),
    {
        proof {
            lemma_kinds_plain();
            lemma_uuid_plain(document_id.value);
            lemma_int_plain(version as int);
        }
        let id: String = join3(
            document_id.to_string().as_str(),
            ":",
            signed_text(version as i64).as_str(),
        );
        self.mint("docversion", id.as_str())
    }

    /// The IRI of a time mention.
    pub fn mention(&self, id: Uuid) -> (node: NamedNode)
        ensures
            node@ == self.mention_iri(id),
            iri_valid(node@),
    {
        proof {
            lemma_kinds_plain();
            lemma_uuid_plain(id.value);
        }
        self.mint("timemention", id.to_string().as_str())
    }

    fn ontology(&self, kind: &str, iri: &Option<String>, key: &String) -> (node: NamedNode)
        requires
            iri_valid(self.ontology_iri(kind@, *iri, *key)),
        ensures
            node@ == self.ontology_iri(kind@, *iri, *key),
            iri_valid(node@),
    {
        match iri {
            Some(i) => match NamedNode::new(i.clone()) {
                Some(node) => node,
                None => self.mint(kind, key.as_str()),
            },
            None => self.mint(kind, key.as_str()),
        }
    }

    /// The IRI of a class.
    pub fn class(&self, c: &ExportClass) -> (node: NamedNode)
        requires
            iri_valid(self.class_iri(*c)),
        ensures
            node@ == self.class_iri(*c),
            iri_valid(node@),
    {
        self.ontology("class", &c.iri, &c.key)
    }

    /// The IRI of a relation.
    pub fn relation(&self, r: &ExportRelation) -> (node: NamedNode)
        requires
            iri_valid(self.relation_iri(*r)),
        ensures
            node@ == self.relation_iri(*r),
            iri_valid(node@),
    {
        self.ontology("relation", &r.iri, &r.key)
    }

    fn names_ontology(&self, kind: &str, iri: &Option<String>, key: &String) -> (b: bool)
        ensures
            b == iri_valid(self.ontology_iri(kind@, *iri, *key)),
    {
        let imported: bool = match iri {
            Some(i) => NamedNode::new(i.clone()).is_some(),
            None => false,
        };
        imported || NamedNode::new(self.mint_text(kind, key.as_str())).is_some()
    }

    /// Whether a class has an IRI: it came with one, or its key can be made into one.
    pub fn names_class(&self, c: &ExportClass) -> (b: bool)
        ensures
            b == iri_valid(self.class_iri(*c)),
    {
        self.names_ontology("class", &c.iri, &c.key)
    }

    /// Whether a relation has an IRI: it came with one, or its key can be made into one.
    pub fn names_relation(&self, r: &ExportRelation) -> (b: bool)
        ensures
            b == iri_valid(self.relation_iri(*r)),
    {
        self.names_ontology("relation", &r.iri, &r.key)
    }
}

proof fn lemma_banned_forbidden(base: Seq<char>)
    ensures
        holds_any(base, BANNED_IN_BASE@) ==> holds_forbidden(base),
{
    reveal_strlit("<>\"{}|\\^` ");
    if holds_any(base, BANNED_IN_BASE@) {
        let i = choose|i: int| 0 <= i < base.len() && BANNED_IN_BASE@.contains(#[trigger] base[i]);
        assert(never_in_iri(base[i]));
    }
}

proof fn lemma_end_slashes(s: Seq<char>)
    ensures
        without_end_slashes(s).len() <= s.len(),
        forall|i: int| 0 <= i < without_end_slashes(s).len() ==> without_end_slashes(s)[i] == s[i],
        forall|i: int| without_end_slashes(s).len() <= i < s.len() ==> #[trigger] s[i] == '/',
    decreases s.len(),
{
    if s.len() > 0 && s.last() == '/' {
        let before = s.drop_last();
        lemma_end_slashes(before);
        assert forall|i: int| 0 <= i < without_end_slashes(s).len() implies without_end_slashes(s)[i]
            == s[i] by {
            assert(without_end_slashes(before)[i] == before[i]);
        }
        assert forall|i: int| without_end_slashes(s).len() <= i < s.len() implies #[trigger] s[i]
            == '/' by {
            if i < before.len() {
                assert(before[i] == s[i]);
            }
        }
    }
}

proof fn lemma_prefix_forbidden(base: Seq<char>, kb: Uuid)
    ensures
        holds_forbidden(base) ==> holds_forbidden(based_prefix(base, kb)),
{
    lemma_end_slashes(base);
    if holds_forbidden(base) {
        let i = choose|i: int| 0 <= i < base.len() && never_in_iri(#[trigger] base[i]);
        assert(based_prefix(base, kb)[i] == base[i]);
    }
}

proof fn lemma_urn_prefix(v: u128)
    ensures
        plain_urn("urn:utopia:kb:"@ + uuid_text(v) + ":"@),
{
    reveal_strlit("urn:utopia:kb:");
    reveal_strlit(":");
    uuid_text_chars(v);
    let head = "urn:utopia:kb:"@;
    let s = head + uuid_text(v) + ":"@;
    assert forall|i: int| 4 <= i < s.len() implies unreserved(#[trigger] s[i]) || s[i] == ':' by {
        if i < 14 {
            assert(s[i] == head[i]);
            assert(i == 4 || i == 5 || i == 6 || i == 7 || i == 8 || i == 9 || i == 10 || i == 11
                || i == 12 || i == 13);
        } else if i < 50 {
            assert(s[i] == uuid_text(v)[i - 14]);
        }
    }
}

proof fn lemma_uuid_plain(v: u128)
    ensures
        plain_id(uuid_text(v)),
        plain_id(":"@),
{
    reveal_strlit(":");
    uuid_text_chars(v);
}

proof fn lemma_nat_plain(n: nat)
    ensures
        plain_id(nat_text(n)),
    decreases n,
{
    if n >= 10 {
        lemma_nat_plain(n / 10);
    }
}

proof fn lemma_int_plain(n: int)
    ensures
        plain_id(int_text(n)),
{
    if n < 0 {
        lemma_nat_plain((-n) as nat);
    } else {
        lemma_nat_plain(n as nat);
    }
}

/// One of the first eleven positions.
spec fn early(i: int) -> bool {
    i == 0 || i == 1 || i == 2 || i == 3 || i == 4 || i == 5 || i == 6 || i == 7 || i == 8 || i == 9
        || i == 10
}

proof fn lemma_kinds_plain()
    ensures
        plain_id("entity"@),
        plain_id("fact"@),
        plain_id("derived"@),
        plain_id("document"@),
        plain_id("chunk"@),
        plain_id("evidence"@),
        plain_id("rule"@),
        plain_id("arule"@),
        plain_id("premise"@),
        plain_id("condition"@),
        plain_id("docversion"@),
        plain_id("timemention"@),
{
    reveal_strlit("entity");
    assert forall|i: int| 0 <= i < "entity"@.len() implies unreserved(#[trigger] "entity"@[i]) by {
        assert(early(i));
    }
    reveal_strlit("fact");
    assert forall|i: int| 0 <= i < "fact"@.len() implies unreserved(#[trigger] "fact"@[i]) by {
        assert(early(i));
    }
    reveal_strlit("derived");
    assert forall|i: int| 0 <= i < "derived"@.len() implies unreserved(#[trigger] "derived"@[i]) by {
        assert(early(i));
    }
    reveal_strlit("document");
    assert forall|i: int| 0 <= i < "document"@.len() implies unreserved(#[trigger] "document"@[i]) by {
        assert(early(i));
    }
    reveal_strlit("chunk");
    assert forall|i: int| 0 <= i < "chunk"@.len() implies unreserved(#[trigger] "chunk"@[i]) by {
        assert(early(i));
    }
    reveal_strlit("evidence");
    assert forall|i: int| 0 <= i < "evidence"@.len() implies unreserved(#[trigger] "evidence"@[i]) by {
        assert(early(i));
    }
    reveal_strlit("rule");
    assert forall|i: int| 0 <= i < "rule"@.len() implies unreserved(#[trigger] "rule"@[i]) by {
        assert(early(i));
    }
    reveal_strlit("arule");
    assert forall|i: int| 0 <= i < "arule"@.len() implies unreserved(#[trigger] "arule"@[i]) by {
        assert(early(i));
    }
    reveal_strlit("premise");
    assert forall|i: int| 0 <= i < "premise"@.len() implies unreserved(#[trigger] "premise"@[i]) by {
        assert(early(i));
    }
    reveal_strlit("condition");
    assert forall|i: int| 0 <= i < "condition"@.len() implies unreserved(#[trigger] "condition"@[i]) by {
        assert(early(i));
    }
    reveal_strlit("docversion");
    assert forall|i: int| 0 <= i < "docversion"@.len() implies unreserved(#[trigger] "docversion"@[i]) by {
        assert(early(i));
    }
    reveal_strlit("timemention");
    assert forall|i: int| 0 <= i < "timemention"@.len() implies unreserved(#[trigger] "timemention"@[i]) by {
        assert(early(i));
    }
}

} // verus!
