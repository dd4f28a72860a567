//! What holds of names: no two rows share an IRI.
use crate::emit_fact::property_node;
use crate::names::{based_prefix, default_prefix, Names};
use crate::text::{digit_char, int_text, nat_text, without_end_slashes};
use crate::uuid::{uuid_text, uuid_text_chars, uuid_text_injective, Uuid};
use vstd::prelude::*;

verus! {

/// A row that an export names.
pub enum RowName {
    Entity(Uuid),
    Fact(Uuid),
    Derived(Uuid),
    Document(Uuid),
    Chunk(Uuid),
    Evidence(Uuid, Uuid),
    Rule(Uuid),
    AttributeRule(Uuid),
    Premise(Uuid, i32),
    Condition(Uuid, i32, i32),
    DocVersion(Uuid, i32),
    Mention(Uuid),
}

impl RowName {
    /// The kind of row, as it stands in its IRI.
    pub open spec fn kind(self) -> Seq<char> {
        match self {
            RowName::Entity(_) => "entity"@,
            RowName::Fact(_) => "fact"@,
            RowName::Derived(_) => "derived"@,
            RowName::Document(_) => "document"@,
            RowName::Chunk(_) => "chunk"@,
            RowName::Evidence(_, _) => "evidence"@,
            RowName::Rule(_) => "rule"@,
            RowName::AttributeRule(_) => "arule"@,
            RowName::Premise(_, _) => "premise"@,
            RowName::Condition(_, _, _) => "condition"@,
            RowName::DocVersion(_, _) => "docversion"@,
            RowName::Mention(_) => "timemention"@,
        }
    }

    /// The key of the row, as it stands in its IRI.
    pub open spec fn id(self) -> Seq<char> {
        match self {
            RowName::Entity(u) => u.text(),
            RowName::Fact(u) => u.text(),
            RowName::Derived(u) => u.text(),
            RowName::Document(u) => u.text(),
            RowName::Chunk(u) => u.text(),
            RowName::Evidence(u, v) => u.text() + ":"@ + v.text(),
            RowName::Rule(u) => u.text(),
            RowName::AttributeRule(u) => u.text(),
            RowName::Premise(u, n) => u.text() + ":"@ + int_text(n as int),
            RowName::Condition(u, g, n) => (u.text() + ":"@ + int_text(g as int)) + ":"@ + int_text(
                n as int,
            ),
            RowName::DocVersion(u, n) => u.text() + ":"@ + int_text(n as int),
            RowName::Mention(u) => u.text(),
        }
    }

    /// The IRI of the row.
    pub open spec fn iri(self, names: Names) -> Seq<char> {
        match self {
            RowName::Entity(u) => names.entity_iri(u),
            RowName::Fact(u) => names.fact_iri(u),
            RowName::Derived(u) => names.derived_iri(u),
            RowName::Document(u) => names.document_iri(u),
            RowName::Chunk(u) => names.chunk_iri(u),
            RowName::Evidence(u, v) => names.evidence_iri(u, v),
            RowName::Rule(u) => names.rule_iri(u),
            RowName::AttributeRule(u) => names.attribute_rule_iri(u),
            RowName::Premise(u, n) => names.premise_iri(u, n),
            RowName::Condition(u, g, n) => names.condition_iri(u, g, n),
            RowName::DocVersion(u, n) => names.docversion_iri(u, n),
            RowName::Mention(u) => names.mention_iri(u),
        }
    }
}

/// Where a text first has a character.
proof fn lemma_split_at_first(a: Seq<char>, b: Seq<char>, c: Seq<char>, d: Seq<char>, sep: char)
    requires
        a.push(sep) + b == c.push(sep) + d,
        !a.contains(sep),
        !c.contains(sep),
    ensures
        a == c,
        b == d,
{
    let left = a.push(sep) + b;
    let right = c.push(sep) + d;
    if a.len() < c.len() {
        assert(left[a.len() as int] == sep);
        assert(right[a.len() as int] == c[a.len() as int]);
        assert(c.contains(sep));
    }
    if c.len() < a.len() {
        assert(right[c.len() as int] == sep);
        assert(left[c.len() as int] == a[c.len() as int]);
        assert(a.contains(sep));
    }
    assert forall|i: int| 0 <= i < a.len() implies a[i] == c[i] by {
        assert(left[i] == a[i]);
        assert(right[i] == c[i]);
    }
    assert(a =~= c);
    assert(left.len() == right.len());
    assert forall|i: int| 0 <= i < b.len() implies b[i] == d[i] by {
        assert(left[a.len() + 1 + i] == b[i]);
        assert(right[a.len() + 1 + i] == d[i]);
    }
    assert(b =~= d);
}

/// Two IRIs of one export are the same exactly if kind and key are: the kind ends at the first
/// separator.
pub proof fn minted_apart(
    names: Names,
    kind1: Seq<char>,
    id1: Seq<char>,
    kind2: Seq<char>,
    id2: Seq<char>,
)
    requires
        !kind1.contains(':') && !kind1.contains('/'),
        !kind2.contains(':') && !kind2.contains('/'),
    ensures
        names.minted(kind1, id1) == names.minted(kind2, id2) <==> kind1 == kind2 && id1 == id2,
{
    names.separator();
    let p = names.prefix();
    let s = names.sep();
    let left = kind1.push(s) + id1;
    let right = kind2.push(s) + id2;
    assert(names.minted(kind1, id1) =~= p + left);
    assert(names.minted(kind2, id2) =~= p + right);
    assert((p + left).skip(p.len() as int) =~= left);
    assert((p + right).skip(p.len() as int) =~= right);
    if names.minted(kind1, id1) == names.minted(kind2, id2) {
        lemma_split_at_first(kind1, id1, kind2, id2, s);
    }
}

proof fn lemma_digit_inj(d: nat, e: nat)
    requires
        d < 10,
        e < 10,
        digit_char(d) == digit_char(e),
    ensures
        d == e,
{
    assert(digit_char(d) as int == 48 + d);
    assert(digit_char(e) as int == 48 + e);
}

proof fn lemma_nat_text_inj(n: nat, m: nat)
    requires
        nat_text(n) == nat_text(m),
    ensures
        n == m,
    decreases n,
{
    lemma_nat_text_len(n);
    lemma_nat_text_len(m);
    if n < 10 {
        assert(nat_text(n).len() == 1);
        assert(m < 10);
        assert(nat_text(n)[0] == digit_char(n));
        assert(nat_text(m)[0] == digit_char(m));
        lemma_digit_inj(n, m);
    } else {
        if m < 10 {
            assert(nat_text(m).len() == 1);
        }
        assert(nat_text(n).last() == digit_char(n % 10));
        assert(nat_text(m).last() == digit_char(m % 10));
        lemma_digit_inj(n % 10, m % 10);
        assert(nat_text(n).drop_last() =~= nat_text(n / 10));
        assert(nat_text(m).drop_last() =~= nat_text(m / 10));
        lemma_nat_text_inj(n / 10, m / 10);
    }
}

proof fn lemma_nat_text_len(n: nat)
    ensures
        nat_text(n).len() > 0,
        n >= 10 ==> nat_text(n).len() > 1,
        forall|i: int| 0 <= i < nat_text(n).len() ==> '0' <= #[trigger] nat_text(n)[i] <= '9',
    decreases n,
{
    if n >= 10 {
        lemma_nat_text_len(n / 10);
    }
}

/// Different integers have different texts.
pub proof fn int_text_apart(n: int, m: int)
    requires
        int_text(n) == int_text(m),
    ensures
        n == m,
{
    if n < 0 {
        lemma_nat_text_len((-n) as nat);
        assert(int_text(n)[0] == '-');
    } else {
        lemma_nat_text_len(n as nat);
    }
    if m < 0 {
        lemma_nat_text_len((-m) as nat);
        assert(int_text(m)[0] == '-');
    } else {
        lemma_nat_text_len(m as nat);
    }
    if n < 0 && m < 0 {
        assert(int_text(n).skip(1) =~= nat_text((-n) as nat));
        assert(int_text(m).skip(1) =~= nat_text((-m) as nat));
        lemma_nat_text_inj((-n) as nat, (-m) as nat);
    } else if n >= 0 && m >= 0 {
        lemma_nat_text_inj(n as nat, m as nat);
    }
}

proof fn lemma_int_text_no_colon(n: int)
    ensures
        !int_text(n).contains(':'),
{
    if n < 0 {
        lemma_nat_text_len((-n) as nat);
    } else {
        lemma_nat_text_len(n as nat);
    }
}

proof fn lemma_uuid_no_colon(v: u128)
    ensures
        !uuid_text(v).contains(':'),
{
    uuid_text_chars(v);
}

proof fn lemma_colon()
    ensures
        ":"@ == seq![':'],
{
    reveal_strlit(":");
    assert(":"@ =~= seq![':']);
}

/// An identifier, a colon and the rest.
proof fn lemma_compound_id(u: Uuid, rest1: Seq<char>, v: Uuid, rest2: Seq<char>)
    requires
        u.text() + ":"@ + rest1 == v.text() + ":"@ + rest2,
    ensures
        u == v,
        rest1 == rest2,
{
    lemma_colon();
    lemma_uuid_no_colon(u.value);
    lemma_uuid_no_colon(v.value);
    assert(u.text() + ":"@ + rest1 =~= u.text().push(':') + rest1);
    assert(v.text() + ":"@ + rest2 =~= v.text().push(':') + rest2);
    lemma_split_at_first(u.text(), rest1, v.text(), rest2, ':');
    uuid_text_injective(u.value, v.value);
}

proof fn lemma_same_id(a: RowName, b: RowName)
    requires
        a.id() == b.id(),
        a.kind() == b.kind(),
    ensures
        a == b,
{
    lemma_kind_tells(a, b);
    match (a, b) {
        (RowName::Evidence(u, x), RowName::Evidence(v, y)) => {
            lemma_compound_id(u, x.text(), v, y.text());
            uuid_text_injective(x.value, y.value);
        },
        (RowName::Premise(u, n), RowName::Premise(v, m)) => {
            lemma_compound_id(u, int_text(n as int), v, int_text(m as int));
            int_text_apart(n as int, m as int);
        },
        (RowName::DocVersion(u, n), RowName::DocVersion(v, m)) => {
            lemma_compound_id(u, int_text(n as int), v, int_text(m as int));
            int_text_apart(n as int, m as int);
        },
        (RowName::Condition(u, g, n), RowName::Condition(v, h, m)) => {
            let rest1 = int_text(g as int) + ":"@ + int_text(n as int);
            let rest2 = int_text(h as int) + ":"@ + int_text(m as int);
            assert(a.id() =~= u.text() + ":"@ + rest1);
            assert(b.id() =~= v.text() + ":"@ + rest2);
            lemma_compound_id(u, rest1, v, rest2);
            lemma_colon();
            lemma_int_text_no_colon(g as int);
            lemma_int_text_no_colon(h as int);
            assert(rest1 =~= int_text(g as int).push(':') + int_text(n as int));
            assert(rest2 =~= int_text(h as int).push(':') + int_text(m as int));
            lemma_split_at_first(
                int_text(g as int),
                int_text(n as int),
                int_text(h as int),
                int_text(m as int),
                ':',
            );
            int_text_apart(g as int, h as int);
            int_text_apart(n as int, m as int);
        },
        (RowName::Entity(u), RowName::Entity(v)) => {
            uuid_text_injective(u.value, v.value);
        },
        (RowName::Fact(u), RowName::Fact(v)) => {
            uuid_text_injective(u.value, v.value);
        },
        (RowName::Derived(u), RowName::Derived(v)) => {
            uuid_text_injective(u.value, v.value);
        },
        (RowName::Document(u), RowName::Document(v)) => {
            uuid_text_injective(u.value, v.value);
        },
        (RowName::Chunk(u), RowName::Chunk(v)) => {
            uuid_text_injective(u.value, v.value);
        },
        (RowName::Rule(u), RowName::Rule(v)) => {
            uuid_text_injective(u.value, v.value);
        },
        (RowName::AttributeRule(u), RowName::AttributeRule(v)) => {
            uuid_text_injective(u.value, v.value);
        },
        (RowName::Mention(u), RowName::Mention(v)) => {
            uuid_text_injective(u.value, v.value);
        },
        _ => {},
    }
}

proof fn lemma_kind_chars()
    ensures
        forall|a: RowName| !(#[trigger] a.kind()).contains(':') && !a.kind().contains('/'),
{
    reveal_strlit("entity");
    reveal_strlit("fact");
    reveal_strlit("derived");
    reveal_strlit("document");
    reveal_strlit("chunk");
    reveal_strlit("evidence");
    reveal_strlit("rule");
    reveal_strlit("arule");
    reveal_strlit("premise");
    reveal_strlit("condition");
    reveal_strlit("docversion");
    reveal_strlit("timemention");
    assert forall|a: RowName| !(#[trigger] a.kind()).contains(':') && !a.kind().contains('/') by {
        assert forall|i: int| 0 <= i < a.kind().len() implies #[trigger] a.kind()[i] != ':' && a.kind()[i]
            != '/' by {
            assert(i == 0 || i == 1 || i == 2 || i == 3 || i == 4 || i == 5 || i == 6 || i == 7 || i
                == 8 || i == 9 || i == 10);
        }
    }
}

proof fn lemma_kind_tells(a: RowName, b: RowName)
    requires
        a.kind() == b.kind(),
    ensures
        match (a, b) {
            (RowName::Entity(_), RowName::Entity(_)) => true,
            (RowName::Fact(_), RowName::Fact(_)) => true,
            (RowName::Derived(_), RowName::Derived(_)) => true,
            (RowName::Document(_), RowName::Document(_)) => true,
            (RowName::Chunk(_), RowName::Chunk(_)) => true,
            (RowName::Evidence(_, _), RowName::Evidence(_, _)) => true,
            (RowName::Rule(_), RowName::Rule(_)) => true,
            (RowName::AttributeRule(_), RowName::AttributeRule(_)) => true,
            (RowName::Premise(_, _), RowName::Premise(_, _)) => true,
            (RowName::Condition(_, _, _), RowName::Condition(_, _, _)) => true,
            (RowName::DocVersion(_, _), RowName::DocVersion(_, _)) => true,
            (RowName::Mention(_), RowName::Mention(_)) => true,
            _ => false,
        },
{
    reveal_strlit("entity");
    reveal_strlit("fact");
    reveal_strlit("derived");
    reveal_strlit("document");
    reveal_strlit("chunk");
    reveal_strlit("evidence");
    reveal_strlit("rule");
    reveal_strlit("arule");
    reveal_strlit("premise");
    reveal_strlit("condition");
    reveal_strlit("docversion");
    reveal_strlit("timemention");
    let k = a.kind();
    let l = b.kind();
    assert(k.len() == l.len());
    assert(k[0] == l[0] && k[1] == l[1] && k[2] == l[2] && k[3] == l[3]);
}

/// Two rows of an export have the same IRI only if they are the same row: identity never depends
/// on luck, and an axiom is never taken for a business rule, nor an asserted fact for a derived
/// one.
pub proof fn rows_named_apart(names: Names, a: RowName, b: RowName)
    requires
        a.iri(names) == b.iri(names),
    ensures
        a == b,
{
    lemma_kind_chars();
    assert(a.iri(names) == names.minted(a.kind(), a.id()));
    assert(b.iri(names) == names.minted(b.kind(), b.id()));
    minted_apart(names, a.kind(), a.id(), b.kind(), b.id());
    lemma_same_id(a, b);
}

/// Under default names two knowledge bases never share an IRI, whatever the rows.
pub proof fn knowledge_bases_named_apart(n: Names, m: Names, a: RowName, b: RowName)
    requires
        n.sep() == ':',
        m.sep() == ':',
        n.prefix() == default_prefix(n.kb()),
        m.prefix() == default_prefix(m.kb()),
        a.iri(n) == b.iri(m),
    ensures
        n.kb() == m.kb(),
        a == b,
{
    let x = a.iri(n);
    let y = b.iri(m);
    assert(x == n.minted(a.kind(), a.id()));
    assert(y == m.minted(b.kind(), b.id()));
    uuid_text_chars(n.kb().value);
    uuid_text_chars(m.kb().value);
    let head = "urn:utopia:kb:"@;
    let h = head.len() as int;
    assert(x.subrange(h, h + 36) =~= n.kb().text());
    assert(y.subrange(h, h + 36) =~= m.kb().text());
    uuid_text_injective(n.kb().value, m.kb().value);
    assert(a.iri(n) == b.iri(n));
    rows_named_apart(n, a, b);
}

/// Under one base, too, two knowledge bases never share an IRI.
pub proof fn knowledge_bases_named_apart_under_a_base(
    base: Seq<char>,
    n: Names,
    m: Names,
    a: RowName,
    b: RowName,
)
    requires
        n.sep() == '/',
        m.sep() == '/',
        n.prefix() == based_prefix(base, n.kb()),
        m.prefix() == based_prefix(base, m.kb()),
        a.iri(n) == b.iri(m),
    ensures
        n.kb() == m.kb(),
        a == b,
{
    let x = a.iri(n);
    let y = b.iri(m);
    assert(x == n.minted(a.kind(), a.id()));
    assert(y == m.minted(b.kind(), b.id()));
    uuid_text_chars(n.kb().value);
    uuid_text_chars(m.kb().value);
    let h = (without_end_slashes(base) + "/kb/"@).len() as int;
    assert(x.subrange(h, h + 36) =~= n.kb().text());
    assert(y.subrange(h, h + 36) =~= m.kb().text());
    uuid_text_injective(n.kb().value, m.kb().value);
    assert(a.iri(n) == b.iri(n));
    rows_named_apart(n, a, b);
}

/// Each property of each statement has a node of its own.
pub proof fn property_nodes_apart(fact: Uuid, i: nat, other: Uuid, j: nat)
    requires
        property_node(fact, i) == property_node(other, j),
    ensures
        fact == other,
        i == j,
{
    let x = property_node(fact, i);
    let y = property_node(other, j);
    uuid_text_chars(fact.value);
    uuid_text_chars(other.value);
    let h = "sq-"@.len() as int;
    let t = h + 36 + "-"@.len();
    assert(x.subrange(h, h + 36) =~= fact.text());
    assert(y.subrange(h, h + 36) =~= other.text());
    uuid_text_injective(fact.value, other.value);
    assert(x.skip(t) =~= nat_text(i));
    assert(y.skip(t) =~= nat_text(j));
    assert(int_text(i as int) == int_text(j as int));
    int_text_apart(i as int, j as int);
}

/// The names of an export depend on the knowledge base and the base alone: two exports of one
/// knowledge base name every row alike.
pub proof fn names_are_stable(n: Names, m: Names, a: RowName)
    requires
        n.prefix() == m.prefix(),
        n.sep() == m.sep(),
    ensures
        a.iri(n) == a.iri(m),
{
}

/// Slashes at the end of a base make no difference.
pub proof fn base_slash_makes_no_difference(base: Seq<char>)
    ensures
        without_end_slashes(base.push('/')) == without_end_slashes(base),
{
    assert(base.push('/').drop_last() =~= base);
}

} // verus!
