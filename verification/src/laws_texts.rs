//! What texts and names are: how numbers, identifiers and IRIs are spelled, and what is trimmed off.
use crate::emit_fact::property_node;
use crate::names::{base_given, based_prefix, default_prefix, Names};
use crate::rows::{ExportClass, ExportRelation};
use crate::sink::{export_prefixes, format_named, Format};
use crate::term::iri_valid;
use crate::text::{
    begins_with, int_text, lowered, nat_text, opt_text, trimmed, trimmed_end, trimmed_start,
    white_space, without_end_slashes,
};
use crate::uuid::{uuid_parsed, uuid_spelled, Uuid};
use vstd::prelude::*;

verus! {

// ---- Numbers ----

/// A number is written in decimal digits, the last digit last, without zeros in front, and with a
/// minus sign in front of a negative one.
pub proof fn numbers_are_written_in_decimals(m: nat, d: nat, n: int)
    requires
        d < 10,
    ensures
        nat_text(d).len() == 1 && nat_text(d)[0] as int == 48 + d,
        m > 0 ==> nat_text(10 * m + d) == nat_text(m).push(nat_text(d)[0]),
        n >= 0 ==> int_text(n) == nat_text(n as nat),
        n < 0 ==> int_text(n) == seq!['-'] + nat_text((-n) as nat),
{
    assert((10 * m + d) / 10 == m && (10 * m + d) % 10 == d) by (nonlinear_arith)
        requires
            d < 10,
    ;
}

/// An identifier is written as 32 small hexadecimal digits, the highest first, with hyphens between
/// groups of 8, 4, 4, 4 and 12.
pub proof fn identifiers_are_written_in_groups(id: Uuid, i: int)
    requires
        0 <= i < 36,
    ensures
        id.text().len() == 36,
        (i == 8 || i == 13 || i == 18 || i == 23) ==> id.text()[i] == '-',
        !(i == 8 || i == 13 || i == 18 || i == 23) ==> ({
            let k = i - (if i < 8 {
                0int
            } else if i < 13 {
                1
            } else if i < 18 {
                2
            } else if i < 23 {
                3
            } else {
                4
            });
            let d = (id.value >> ((124 - 4 * k) as u128)) & 0xf;
            id.text()[i] == (if d < 10 {
                (48 + d) as char
            } else {
                (87 + d) as char
            })
        }),
{
}

/// A text spells the identifier whose bits are read in it, and no other.
pub proof fn texts_spell_what_is_read_in_them(s: Seq<char>, id: Uuid)
    ensures
        uuid_spelled(s) == Some(id) <==> uuid_parsed(s) == Some(id.value),
{
}

// ---- White space, slashes and case ----

/// White space is what Unicode calls so.
pub proof fn white_space_is_that_of_unicode(c: char)
    ensures
        white_space(c) <==> {
            let n = c as u32;
            ||| 0x9 <= n <= 0xd
            ||| n == 0x20
            ||| n == 0x85
            ||| n == 0xa0
            ||| n == 0x1680
            ||| 0x2000 <= n <= 0x200a
            ||| n == 0x2028
            ||| n == 0x2029
            ||| n == 0x202f
            ||| n == 0x205f
            ||| n == 0x3000
        },
{
}

proof fn lemma_trimmed_start(s: Seq<char>)
    ensures
        exists|i: int|
            0 <= i <= s.len() && #[trigger] s.skip(i) == trimmed_start(s) && forall|j: int|
                0 <= j < i ==> white_space(#[trigger] s[j]),
        trimmed_start(s).len() > 0 ==> !white_space(trimmed_start(s)[0]),
    decreases s.len(),
{
    if s.len() > 0 && white_space(s[0]) {
        let t = s.skip(1);
        lemma_trimmed_start(t);
        let i = choose|i: int|
            0 <= i <= t.len() && #[trigger] t.skip(i) == trimmed_start(t) && forall|j: int|
                0 <= j < i ==> white_space(#[trigger] t[j]);
        assert(s.skip(i + 1) =~= t.skip(i));
        assert forall|j: int| 0 <= j < i + 1 implies white_space(#[trigger] s[j]) by {
            if j > 0 {
                assert(t[j - 1] == s[j]);
            }
        }
    } else {
        assert(s.skip(0) =~= s);
    }
}

proof fn lemma_trimmed_end(s: Seq<char>)
    ensures
        exists|i: int|
            0 <= i <= s.len() && #[trigger] s.take(i) == trimmed_end(s) && forall|j: int|
                i <= j < s.len() ==> white_space(#[trigger] s[j]),
        trimmed_end(s).len() > 0 ==> !white_space(trimmed_end(s).last()),
    decreases s.len(),
{
    if s.len() > 0 && white_space(s.last()) {
        let t = s.drop_last();
        lemma_trimmed_end(t);
        let i = choose|i: int|
            0 <= i <= t.len() && #[trigger] t.take(i) == trimmed_end(t) && forall|j: int|
                i <= j < t.len() ==> white_space(#[trigger] t[j]);
        assert(s.take(i) =~= t.take(i));
        assert forall|j: int| i <= j < s.len() implies white_space(#[trigger] s[j]) by {
            if j < t.len() {
                assert(t[j] == s[j]);
            }
        }
    } else {
        assert(s.take(s.len() as int) =~= s);
    }
}

/// What is trimmed off is the white space at both ends, all of it, and nothing else.
pub proof fn white_space_around_is_trimmed(s: Seq<char>)
    ensures
        exists|i: int, k: int|
            0 <= i <= k <= s.len() && #[trigger] s.subrange(i, k) == trimmed(s) && (forall|j: int|
                0 <= j < i ==> white_space(#[trigger] s[j])) && (forall|j: int|
                k <= j < s.len() ==> white_space(#[trigger] s[j])),
        trimmed(s).len() > 0 ==> !white_space(trimmed(s)[0]) && !white_space(trimmed(s).last()),
{
    lemma_trimmed_start(s);
    let t = trimmed_start(s);
    lemma_trimmed_end(t);
    let i = choose|i: int|
        0 <= i <= s.len() && #[trigger] s.skip(i) == t && forall|j: int|
            0 <= j < i ==> white_space(#[trigger] s[j]);
    let m = choose|m: int|
        0 <= m <= t.len() && #[trigger] t.take(m) == trimmed_end(t) && forall|j: int|
            m <= j < t.len() ==> white_space(#[trigger] t[j]);
    assert(s.subrange(i, i + m) =~= t.take(m));
    assert forall|j: int| i + m <= j < s.len() implies white_space(#[trigger] s[j]) by {
        assert(t[j - i] == s[j]);
    }
    if trimmed(s).len() > 0 {
        assert(trimmed(s)[0] == t[0]);
    }
}

/// What is taken off the end of a base is its slashes, all of them, and nothing else.
pub proof fn slashes_at_the_end_are_trimmed(s: Seq<char>)
    ensures
        without_end_slashes(s).len() <= s.len(),
        without_end_slashes(s) == s.take(without_end_slashes(s).len() as int),
        forall|i: int| without_end_slashes(s).len() <= i < s.len() ==> #[trigger] s[i] == '/',
        without_end_slashes(s).len() > 0 ==> without_end_slashes(s).last() != '/',
    decreases s.len(),
{
    if s.len() > 0 && s.last() == '/' {
        let before = s.drop_last();
        slashes_at_the_end_are_trimmed(before);
        let n = without_end_slashes(s).len() as int;
        assert(before.take(n) =~= s.take(n));
        assert forall|i: int| n <= i < s.len() implies #[trigger] s[i] == '/' by {
            if i < before.len() {
                assert(before[i] == s[i]);
            }
        }
    } else {
        assert(s.take(s.len() as int) =~= s);
    }
}

/// Capitals of ASCII become small, and every other character stays.
pub proof fn only_capitals_become_small(s: Seq<char>, i: int)
    requires
        0 <= i < s.len(),
    ensures
        lowered(s).len() == s.len(),
        65 <= s[i] as u32 <= 90 ==> lowered(s)[i] as int == s[i] as int + 32,
        !(65 <= s[i] as u32 <= 90) ==> lowered(s)[i] == s[i],
{
}

/// A text begins with another exactly if that one stands at its front.
pub proof fn beginnings_stand_in_front(head: Seq<char>, rest: Seq<char>, s: Seq<char>)
    ensures
        begins_with(head + rest, head),
        begins_with(s, head) ==> s == head + s.skip(head.len() as int),
{
    assert((head + rest).take(head.len() as int) =~= head);
    if begins_with(s, head) {
        assert(s =~= s.take(head.len() as int) + s.skip(head.len() as int));
    }
}

/// An optional text is its characters, or nothing.
pub proof fn optional_text_is_its_characters(s: Option<String>)
    ensures
        s matches Some(t) ==> opt_text(s) == Some(t@),
        s is None ==> opt_text(s) is None,
{
}

// ---- Names ----

/// Every row is named by its kind and its key behind the prefix of the export: most by their
/// identifier, evidence by fact and passage, premises, conditions and versions by what they belong to
/// and their place.
pub proof fn rows_are_named_by_kind_and_key(names: Names, a: Uuid, b: Uuid, m: i32, n: i32)
    ensures
        ({
            let head = |kind: Seq<char>| names.prefix() + kind + seq![names.sep()];
            &&& names.entity_iri(a) == head("entity"@) + a.text()
            &&& names.fact_iri(a) == head("fact"@) + a.text()
            &&& names.derived_iri(a) == head("derived"@) + a.text()
            &&& names.document_iri(a) == head("document"@) + a.text()
            &&& names.chunk_iri(a) == head("chunk"@) + a.text()
            &&& names.rule_iri(a) == head("rule"@) + a.text()
            &&& names.attribute_rule_iri(a) == head("arule"@) + a.text()
            &&& names.mention_iri(a) == head("timemention"@) + a.text()
            &&& names.evidence_iri(a, b) == head("evidence"@) + (a.text() + ":"@ + b.text())
            &&& names.premise_iri(a, m) == head("premise"@) + (a.text() + ":"@ + int_text(m as int))
            &&& names.docversion_iri(a, m) == head("docversion"@) + (a.text() + ":"@ + int_text(
                m as int,
            ))
            &&& names.condition_iri(a, m, n) == head("condition"@) + (a.text() + ":"@ + int_text(
                m as int,
            ) + ":"@ + int_text(n as int))
        }),
{
    let h = |kind: Seq<char>| names.prefix() + kind + seq![names.sep()];
    assert forall|kind: Seq<char>, id: Seq<char>| #[trigger] names.minted(kind, id) == h(kind) + id by {
        assert(names.minted(kind, id) =~= h(kind) + id);
    }
}

/// Without a base an export names its rows by a URN of the knowledge base, and with one under that
/// base. White space around a base does not count, and a blank base counts as none.
pub proof fn prefixes_name_the_knowledge_base(kb: Uuid, base: Option<Seq<char>>)
    ensures
        default_prefix(kb) == "urn:utopia:kb:"@ + kb.text() + ":"@,
        base is None ==> base_given(base) is None,
        base matches Some(b) ==> base_given(base) == (if trimmed(b).len() == 0 {
            None
        } else {
            Some(trimmed(b))
        }),
        base matches Some(b) ==> based_prefix(b, kb) == without_end_slashes(b) + "/kb/"@ + kb.text()
            + "/"@,
{
}

/// What the ontology was imported with keeps its IRI; everything else, and what came with a text that
/// is no IRI, is named by its key.
pub proof fn ontology_keeps_its_iris(names: Names, c: ExportClass, r: ExportRelation)
    ensures
        c.iri is Some && iri_valid(c.iri->0@) ==> names.class_iri(c) == c.iri->0@,
        !(c.iri is Some && iri_valid(c.iri->0@)) ==> names.class_iri(c) == names.prefix() + "class"@
            + seq![names.sep()] + c.key@,
        r.iri is Some && iri_valid(r.iri->0@) ==> names.relation_iri(r) == r.iri->0@,
        !(r.iri is Some && iri_valid(r.iri->0@)) ==> names.relation_iri(r) == names.prefix()
            + "relation"@ + seq![names.sep()] + r.key@,
{
    assert((names.prefix() + "class"@).push(names.sep()) =~= names.prefix() + "class"@
        + seq![names.sep()]);
    assert((names.prefix() + "relation"@).push(names.sep()) =~= names.prefix() + "relation"@
        + seq![names.sep()]);
}

/// The node of a property is called after its statement and its place.
pub proof fn property_nodes_are_called_after_their_place(fact: Uuid, i: nat)
    ensures
        property_node(fact, i) == "sq-"@ + fact.text() + "-"@ + nat_text(i),
{
}

// ---- Formats ----

/// Turtle and JSON-LD go by two and three names, and nothing else is a format.
pub proof fn formats_go_by_their_names(name: Seq<char>)
    ensures
        format_named(name) == Some(Format::Turtle) <==> name == "turtle"@ || name == "ttl"@,
        format_named(name) == Some(Format::JsonLd) <==> name == "jsonld"@ || name == "json-ld"@ || name
            == "json"@,
{
    reveal_strlit("turtle");
    reveal_strlit("ttl");
    reveal_strlit("jsonld");
    reveal_strlit("json-ld");
    reveal_strlit("json");
    assert("turtle"@[0] == 't' && "jsonld"@[0] == 'j' && "ttl"@.len() == 3 && "json"@.len() == 4);
}

/// Every file declares the prefixes of the vocabularies that an export speaks.
pub proof fn files_declare_their_vocabularies()
    ensures
        export_prefixes() == seq![
            ("rdf"@, "http://www.w3.org/1999/02/22-rdf-syntax-ns#"@),
            ("rdfs"@, "http://www.w3.org/2000/01/rdf-schema#"@),
            ("owl"@, "http://www.w3.org/2002/07/owl#"@),
            ("xsd"@, "http://www.w3.org/2001/XMLSchema#"@),
            ("prov"@, "http://www.w3.org/ns/prov#"@),
            ("schema"@, "https://schema.org/"@),
            ("utopia"@, "urn:utopia:ns:"@),
        ],
{
}

} // verus!
