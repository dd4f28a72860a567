//! The words that an export uses of its vocabularies. All of them are plain.
use crate::term::{
    datatype_valid, lemma_http_term, lemma_namespaces_plain, plain_term, rdf_iri, unreserved, XSD,
    XSD_BOOLEAN, XSD_DATE, XSD_DATE_TIME, XSD_DECIMAL, XSD_G_YEAR, XSD_G_YEAR_MONTH, XSD_INTEGER,
    XSD_STRING,
};
use vstd::prelude::*;

verus! {

/// The first `n` characters are unreserved.
spec fn plain_upto(s: Seq<char>, n: nat) -> bool
    decreases n,
{
    n == 0 || (unreserved(s[n - 1]) && plain_upto(s, (n - 1) as nat))
}

proof fn lemma_plain_upto(s: Seq<char>, n: nat)
    requires
        plain_upto(s, n),
    ensures
        forall|i: int| 0 <= i < n ==> unreserved(#[trigger] s[i]),
    decreases n,
{
    if n > 0 {
        lemma_plain_upto(s, (n - 1) as nat);
    }
}

proof fn lemma_plain_word(s: Seq<char>)
    requires
        plain_upto(s, s.len()),
    ensures
        plain_term(s),
{
    reveal(plain_term);
    lemma_plain_upto(s, s.len());
}

/// The words from a to c.
pub open spec fn words_a_to_c(t: Seq<char>) -> bool {
    ||| t == "Activity"@
    ||| t == "allowedQualifier"@
    ||| t == "anchor"@
    ||| t == "AsymmetricProperty"@
    ||| t == "attestedFrom"@
    ||| t == "attestedTo"@
    ||| t == "builtin"@
    ||| t == "charEnd"@
    ||| t == "charStart"@
    ||| t == "Chunk"@
    ||| t == "Class"@
    ||| t == "comment"@
    ||| t == "concludeExpr"@
    ||| t == "concludesPredicate"@
    ||| t == "concludesType"@
    ||| t == "concludesValue"@
    ||| t == "conclusion"@
    ||| t == "condition"@
    ||| t == "confidence"@
}

/// The words from d to f.
pub open spec fn words_d_to_f(t: Seq<char>) -> bool {
    ||| t == "datatype"@
    ||| t == "DatatypeProperty"@
    ||| t == "datePublished"@
    ||| t == "derived"@
    ||| t == "disabled"@
    ||| t == "disjointWith"@
    ||| t == "docTimeSource"@
    ||| t == "DocumentVersion"@
    ||| t == "docVersion"@
    ||| t == "domain"@
    ||| t == "encodingFormat"@
    ||| t == "endDerived"@
    ||| t == "endedUnknown"@
    ||| t == "Entity"@
    ||| t == "Evidence"@
    ||| t == "evidenceOrigin"@
    ||| t == "externalKey"@
    ||| t == "extractedAt"@
    ||| t == "fromChunk"@
    ||| t == "fromStatement"@
    ||| t == "FunctionalProperty"@
}

/// The words from g to p.
pub open spec fn words_g_to_p(t: Seq<char>) -> bool {
    ||| t == "generatedAtTime"@
    ||| t == "grade"@
    ||| t == "granularity"@
    ||| t == "groupSeq"@
    ||| t == "heading"@
    ||| t == "invalidatedAtTime"@
    ||| t == "InverseFunctionalProperty"@
    ||| t == "inverseOf"@
    ||| t == "IrreflexiveProperty"@
    ||| t == "isPartOf"@
    ||| t == "label"@
    ||| t == "object"@
    ||| t == "ObjectProperty"@
    ||| t == "ofVersion"@
    ||| t == "onChunk"@
    ||| t == "onPredicate"@
    ||| t == "onStatement"@
    ||| t == "op"@
    ||| t == "OpenStatement"@
    ||| t == "operand"@
    ||| t == "origin"@
    ||| t == "originModel"@
    ||| t == "position"@
    ||| t == "predicate"@
    ||| t == "Premise"@
    ||| t == "premise"@
    ||| t == "primaryType"@
    ||| t == "proposedPredicate"@
    ||| t == "proposedType"@
    ||| t == "purgedAt"@
}

/// The words from q to s.
pub open spec fn words_q_to_s(t: Seq<char>) -> bool {
    ||| t == "qualifierValue"@
    ||| t == "quote"@
    ||| t == "quoteEnd"@
    ||| t == "quoteStart"@
    ||| t == "range"@
    ||| t == "readerNeeded"@
    ||| t == "readsPredicate"@
    ||| t == "recordId"@
    ||| t == "reference"@
    ||| t == "relativeValue"@
    ||| t == "resolvedAt"@
    ||| t == "resolvedFrom"@
    ||| t == "resolvedFromPrecision"@
    ||| t == "resolvedTo"@
    ||| t == "resolvedToPrecision"@
    ||| t == "role"@
    ||| t == "RuleCondition"@
    ||| t == "ruleDerived"@
    ||| t == "ruleKind"@
    ||| t == "seq"@
    ||| t == "sha256"@
    ||| t == "shape"@
    ||| t == "sizeBytes"@
    ||| t == "specificType"@
    ||| t == "Statement"@
    ||| t == "statementLayer"@
    ||| t == "StatementQualifier"@
    ||| t == "statementQualifier"@
    ||| t == "subClassOf"@
    ||| t == "subject"@
    ||| t == "subjectType"@
    ||| t == "subPropertyOf"@
    ||| t == "supersedes"@
    ||| t == "SymmetricProperty"@
}

/// The words from t to z.
pub open spec fn words_t_to_z(t: Seq<char>) -> bool {
    ||| t == "tag"@
    ||| t == "temporal"@
    ||| t == "text"@
    ||| t == "timeContext"@
    ||| t == "timeContextAt"@
    ||| t == "TimeMention"@
    ||| t == "timeMention"@
    ||| t == "TransitiveProperty"@
    ||| t == "type"@
    ||| t == "typeResolvedAt"@
    ||| t == "typeSource"@
    ||| t == "unit"@
    ||| t == "updatedAt"@
    ||| t == "used"@
    ||| t == "validFrom"@
    ||| t == "validFromGrade"@
    ||| t == "validFromPrecision"@
    ||| t == "validThrough"@
    ||| t == "validThroughPrecision"@
    ||| t == "value"@
    ||| t == "version"@
    ||| t == "wasDerivedFrom"@
    ||| t == "wasGeneratedBy"@
    ||| t == "wasRevisionOf"@
}

/// The words that an export uses.
pub open spec fn export_word(t: Seq<char>) -> bool {
    ||| words_a_to_c(t)
    ||| words_d_to_f(t)
    ||| words_g_to_p(t)
    ||| words_q_to_s(t)
    ||| words_t_to_z(t)
}

proof fn lemma_words_a_to_c(t: Seq<char>)
    requires
        words_a_to_c(t),
    ensures
        plain_term(t),
{
    if t == "Activity"@ {
        reveal_strlit("Activity");
        assert(plain_upto(t, 8)) by {
            reveal_with_fuel(plain_upto, 9);
        }
        lemma_plain_word(t);
    }
    if t == "allowedQualifier"@ {
        reveal_strlit("allowedQualifier");
        assert(plain_upto(t, 16)) by {
            reveal_with_fuel(plain_upto, 17);
        }
        lemma_plain_word(t);
    }
    if t == "anchor"@ {
        reveal_strlit("anchor");
        assert(plain_upto(t, 6)) by {
            reveal_with_fuel(plain_upto, 7);
        }
        lemma_plain_word(t);
    }
    if t == "AsymmetricProperty"@ {
        reveal_strlit("AsymmetricProperty");
        assert(plain_upto(t, 18)) by {
            reveal_with_fuel(plain_upto, 19);
        }
        lemma_plain_word(t);
    }
    if t == "attestedFrom"@ {
        reveal_strlit("attestedFrom");
        assert(plain_upto(t, 12)) by {
            reveal_with_fuel(plain_upto, 13);
        }
        lemma_plain_word(t);
    }
    if t == "attestedTo"@ {
        reveal_strlit("attestedTo");
        assert(plain_upto(t, 10)) by {
            reveal_with_fuel(plain_upto, 11);
        }
        lemma_plain_word(t);
    }
    if t == "builtin"@ {
        reveal_strlit("builtin");
        assert(plain_upto(t, 7)) by {
            reveal_with_fuel(plain_upto, 8);
        }
        lemma_plain_word(t);
    }
    if t == "charEnd"@ {
        reveal_strlit("charEnd");
        assert(plain_upto(t, 7)) by {
            reveal_with_fuel(plain_upto, 8);
        }
        lemma_plain_word(t);
    }
    if t == "charStart"@ {
        reveal_strlit("charStart");
        assert(plain_upto(t, 9)) by {
            reveal_with_fuel(plain_upto, 10);
        }
        lemma_plain_word(t);
    }
    if t == "Chunk"@ {
        reveal_strlit("Chunk");
        assert(plain_upto(t, 5)) by {
            reveal_with_fuel(plain_upto, 6);
        }
        lemma_plain_word(t);
    }
    if t == "Class"@ {
        reveal_strlit("Class");
        assert(plain_upto(t, 5)) by {
            reveal_with_fuel(plain_upto, 6);
        }
        lemma_plain_word(t);
    }
    if t == "comment"@ {
        reveal_strlit("comment");
        assert(plain_upto(t, 7)) by {
            reveal_with_fuel(plain_upto, 8);
        }
        lemma_plain_word(t);
    }
    if t == "concludeExpr"@ {
        reveal_strlit("concludeExpr");
        assert(plain_upto(t, 12)) by {
            reveal_with_fuel(plain_upto, 13);
        }
        lemma_plain_word(t);
    }
    if t == "concludesPredicate"@ {
        reveal_strlit("concludesPredicate");
        assert(plain_upto(t, 18)) by {
            reveal_with_fuel(plain_upto, 19);
        }
        lemma_plain_word(t);
    }
    if t == "concludesType"@ {
        reveal_strlit("concludesType");
        assert(plain_upto(t, 13)) by {
            reveal_with_fuel(plain_upto, 14);
        }
        lemma_plain_word(t);
    }
    if t == "concludesValue"@ {
        reveal_strlit("concludesValue");
        assert(plain_upto(t, 14)) by {
            reveal_with_fuel(plain_upto, 15);
        }
        lemma_plain_word(t);
    }
    if t == "conclusion"@ {
        reveal_strlit("conclusion");
        assert(plain_upto(t, 10)) by {
            reveal_with_fuel(plain_upto, 11);
        }
        lemma_plain_word(t);
    }
    if t == "condition"@ {
        reveal_strlit("condition");
        assert(plain_upto(t, 9)) by {
            reveal_with_fuel(plain_upto, 10);
        }
        lemma_plain_word(t);
    }
    if t == "confidence"@ {
        reveal_strlit("confidence");
        assert(plain_upto(t, 10)) by {
            reveal_with_fuel(plain_upto, 11);
        }
        lemma_plain_word(t);
    }
}

proof fn lemma_words_d_to_f(t: Seq<char>)
    requires
        words_d_to_f(t),
    ensures
        plain_term(t),
{
    if t == "datatype"@ {
        reveal_strlit("datatype");
        assert(plain_upto(t, 8)) by {
            reveal_with_fuel(plain_upto, 9);
        }
        lemma_plain_word(t);
    }
    if t == "DatatypeProperty"@ {
        reveal_strlit("DatatypeProperty");
        assert(plain_upto(t, 16)) by {
            reveal_with_fuel(plain_upto, 17);
        }
        lemma_plain_word(t);
    }
    if t == "datePublished"@ {
        reveal_strlit("datePublished");
        assert(plain_upto(t, 13)) by {
            reveal_with_fuel(plain_upto, 14);
        }
        lemma_plain_word(t);
    }
    if t == "derived"@ {
        reveal_strlit("derived");
        assert(plain_upto(t, 7)) by {
            reveal_with_fuel(plain_upto, 8);
        }
        lemma_plain_word(t);
    }
    if t == "disabled"@ {
        reveal_strlit("disabled");
        assert(plain_upto(t, 8)) by {
            reveal_with_fuel(plain_upto, 9);
        }
        lemma_plain_word(t);
    }
    if t == "disjointWith"@ {
        reveal_strlit("disjointWith");
        assert(plain_upto(t, 12)) by {
            reveal_with_fuel(plain_upto, 13);
        }
        lemma_plain_word(t);
    }
    if t == "docTimeSource"@ {
        reveal_strlit("docTimeSource");
        assert(plain_upto(t, 13)) by {
            reveal_with_fuel(plain_upto, 14);
        }
        lemma_plain_word(t);
    }
    if t == "DocumentVersion"@ {
        reveal_strlit("DocumentVersion");
        assert(plain_upto(t, 15)) by {
            reveal_with_fuel(plain_upto, 16);
        }
        lemma_plain_word(t);
    }
    if t == "docVersion"@ {
        reveal_strlit("docVersion");
        assert(plain_upto(t, 10)) by {
            reveal_with_fuel(plain_upto, 11);
        }
        lemma_plain_word(t);
    }
    if t == "domain"@ {
        reveal_strlit("domain");
        assert(plain_upto(t, 6)) by {
            reveal_with_fuel(plain_upto, 7);
        }
        lemma_plain_word(t);
    }
    if t == "encodingFormat"@ {
        reveal_strlit("encodingFormat");
        assert(plain_upto(t, 14)) by {
            reveal_with_fuel(plain_upto, 15);
        }
        lemma_plain_word(t);
    }
    if t == "endDerived"@ {
        reveal_strlit("endDerived");
        assert(plain_upto(t, 10)) by {
            reveal_with_fuel(plain_upto, 11);
        }
        lemma_plain_word(t);
    }
    if t == "endedUnknown"@ {
        reveal_strlit("endedUnknown");
        assert(plain_upto(t, 12)) by {
            reveal_with_fuel(plain_upto, 13);
        }
        lemma_plain_word(t);
    }
    if t == "Entity"@ {
        reveal_strlit("Entity");
        assert(plain_upto(t, 6)) by {
            reveal_with_fuel(plain_upto, 7);
        }
        lemma_plain_word(t);
    }
    if t == "Evidence"@ {
        reveal_strlit("Evidence");
        assert(plain_upto(t, 8)) by {
            reveal_with_fuel(plain_upto, 9);
        }
        lemma_plain_word(t);
    }
    if t == "evidenceOrigin"@ {
        reveal_strlit("evidenceOrigin");
        assert(plain_upto(t, 14)) by {
            reveal_with_fuel(plain_upto, 15);
        }
        lemma_plain_word(t);
    }
    if t == "externalKey"@ {
        reveal_strlit("externalKey");
        assert(plain_upto(t, 11)) by {
            reveal_with_fuel(plain_upto, 12);
        }
        lemma_plain_word(t);
    }
    if t == "extractedAt"@ {
        reveal_strlit("extractedAt");
        assert(plain_upto(t, 11)) by {
            reveal_with_fuel(plain_upto, 12);
        }
        lemma_plain_word(t);
    }
    if t == "fromChunk"@ {
        reveal_strlit("fromChunk");
        assert(plain_upto(t, 9)) by {
            reveal_with_fuel(plain_upto, 10);
        }
        lemma_plain_word(t);
    }
    if t == "fromStatement"@ {
        reveal_strlit("fromStatement");
        assert(plain_upto(t, 13)) by {
            reveal_with_fuel(plain_upto, 14);
        }
        lemma_plain_word(t);
    }
    if t == "FunctionalProperty"@ {
        reveal_strlit("FunctionalProperty");
        assert(plain_upto(t, 18)) by {
            reveal_with_fuel(plain_upto, 19);
        }
        lemma_plain_word(t);
    }
}

proof fn lemma_words_g_to_p(t: Seq<char>)
    requires
        words_g_to_p(t),
    ensures
        plain_term(t),
{
    if t == "generatedAtTime"@ {
        reveal_strlit("generatedAtTime");
        assert(plain_upto(t, 15)) by {
            reveal_with_fuel(plain_upto, 16);
        }
        lemma_plain_word(t);
    }
    if t == "grade"@ {
        reveal_strlit("grade");
        assert(plain_upto(t, 5)) by {
            reveal_with_fuel(plain_upto, 6);
        }
        lemma_plain_word(t);
    }
    if t == "granularity"@ {
        reveal_strlit("granularity");
        assert(plain_upto(t, 11)) by {
            reveal_with_fuel(plain_upto, 12);
        }
        lemma_plain_word(t);
    }
    if t == "groupSeq"@ {
        reveal_strlit("groupSeq");
        assert(plain_upto(t, 8)) by {
            reveal_with_fuel(plain_upto, 9);
        }
        lemma_plain_word(t);
    }
    if t == "heading"@ {
        reveal_strlit("heading");
        assert(plain_upto(t, 7)) by {
            reveal_with_fuel(plain_upto, 8);
        }
        lemma_plain_word(t);
    }
    if t == "invalidatedAtTime"@ {
        reveal_strlit("invalidatedAtTime");
        assert(plain_upto(t, 17)) by {
            reveal_with_fuel(plain_upto, 18);
        }
        lemma_plain_word(t);
    }
    if t == "InverseFunctionalProperty"@ {
        reveal_strlit("InverseFunctionalProperty");
        assert(plain_upto(t, 25)) by {
            reveal_with_fuel(plain_upto, 26);
        }
        lemma_plain_word(t);
    }
    if t == "inverseOf"@ {
        reveal_strlit("inverseOf");
        assert(plain_upto(t, 9)) by {
            reveal_with_fuel(plain_upto, 10);
        }
        lemma_plain_word(t);
    }
    if t == "IrreflexiveProperty"@ {
        reveal_strlit("IrreflexiveProperty");
        assert(plain_upto(t, 19)) by {
            reveal_with_fuel(plain_upto, 20);
        }
        lemma_plain_word(t);
    }
    if t == "isPartOf"@ {
        reveal_strlit("isPartOf");
        assert(plain_upto(t, 8)) by {
            reveal_with_fuel(plain_upto, 9);
        }
        lemma_plain_word(t);
    }
    if t == "label"@ {
        reveal_strlit("label");
        assert(plain_upto(t, 5)) by {
            reveal_with_fuel(plain_upto, 6);
        }
        lemma_plain_word(t);
    }
    if t == "object"@ {
        reveal_strlit("object");
        assert(plain_upto(t, 6)) by {
            reveal_with_fuel(plain_upto, 7);
        }
        lemma_plain_word(t);
    }
    if t == "ObjectProperty"@ {
        reveal_strlit("ObjectProperty");
        assert(plain_upto(t, 14)) by {
            reveal_with_fuel(plain_upto, 15);
        }
        lemma_plain_word(t);
    }
    if t == "ofVersion"@ {
        reveal_strlit("ofVersion");
        assert(plain_upto(t, 9)) by {
            reveal_with_fuel(plain_upto, 10);
        }
        lemma_plain_word(t);
    }
    if t == "onChunk"@ {
        reveal_strlit("onChunk");
        assert(plain_upto(t, 7)) by {
            reveal_with_fuel(plain_upto, 8);
        }
        lemma_plain_word(t);
    }
    if t == "onPredicate"@ {
        reveal_strlit("onPredicate");
        assert(plain_upto(t, 11)) by {
            reveal_with_fuel(plain_upto, 12);
        }
        lemma_plain_word(t);
    }
    if t == "onStatement"@ {
        reveal_strlit("onStatement");
        assert(plain_upto(t, 11)) by {
            reveal_with_fuel(plain_upto, 12);
        }
        lemma_plain_word(t);
    }
    if t == "op"@ {
        reveal_strlit("op");
        assert(plain_upto(t, 2)) by {
            reveal_with_fuel(plain_upto, 3);
        }
        lemma_plain_word(t);
    }
    if t == "OpenStatement"@ {
        reveal_strlit("OpenStatement");
        assert(plain_upto(t, 13)) by {
            reveal_with_fuel(plain_upto, 14);
        }
        lemma_plain_word(t);
    }
    if t == "operand"@ {
        reveal_strlit("operand");
        assert(plain_upto(t, 7)) by {
            reveal_with_fuel(plain_upto, 8);
        }
        lemma_plain_word(t);
    }
    if t == "origin"@ {
        reveal_strlit("origin");
        assert(plain_upto(t, 6)) by {
            reveal_with_fuel(plain_upto, 7);
        }
        lemma_plain_word(t);
    }
    if t == "originModel"@ {
        reveal_strlit("originModel");
        assert(plain_upto(t, 11)) by {
            reveal_with_fuel(plain_upto, 12);
        }
        lemma_plain_word(t);
    }
    if t == "position"@ {
        reveal_strlit("position");
        assert(plain_upto(t, 8)) by {
            reveal_with_fuel(plain_upto, 9);
        }
        lemma_plain_word(t);
    }
    if t == "predicate"@ {
        reveal_strlit("predicate");
        assert(plain_upto(t, 9)) by {
            reveal_with_fuel(plain_upto, 10);
        }
        lemma_plain_word(t);
    }
    if t == "Premise"@ {
        reveal_strlit("Premise");
        assert(plain_upto(t, 7)) by {
            reveal_with_fuel(plain_upto, 8);
        }
        lemma_plain_word(t);
    }
    if t == "premise"@ {
        reveal_strlit("premise");
        assert(plain_upto(t, 7)) by {
            reveal_with_fuel(plain_upto, 8);
        }
        lemma_plain_word(t);
    }
    if t == "primaryType"@ {
        reveal_strlit("primaryType");
        assert(plain_upto(t, 11)) by {
            reveal_with_fuel(plain_upto, 12);
        }
        lemma_plain_word(t);
    }
    if t == "proposedPredicate"@ {
        reveal_strlit("proposedPredicate");
        assert(plain_upto(t, 17)) by {
            reveal_with_fuel(plain_upto, 18);
        }
        lemma_plain_word(t);
    }
    if t == "proposedType"@ {
        reveal_strlit("proposedType");
        assert(plain_upto(t, 12)) by {
            reveal_with_fuel(plain_upto, 13);
        }
        lemma_plain_word(t);
    }
    if t == "purgedAt"@ {
        reveal_strlit("purgedAt");
        assert(plain_upto(t, 8)) by {
            reveal_with_fuel(plain_upto, 9);
        }
        lemma_plain_word(t);
    }
}

proof fn lemma_words_q_to_s(t: Seq<char>)
    requires
        words_q_to_s(t),
    ensures
        plain_term(t),
{
    if t == "qualifierValue"@ {
        reveal_strlit("qualifierValue");
        assert(plain_upto(t, 14)) by {
            reveal_with_fuel(plain_upto, 15);
        }
        lemma_plain_word(t);
    }
    if t == "quote"@ {
        reveal_strlit("quote");
        assert(plain_upto(t, 5)) by {
            reveal_with_fuel(plain_upto, 6);
        }
        lemma_plain_word(t);
    }
    if t == "quoteEnd"@ {
        reveal_strlit("quoteEnd");
        assert(plain_upto(t, 8)) by {
            reveal_with_fuel(plain_upto, 9);
        }
        lemma_plain_word(t);
    }
    if t == "quoteStart"@ {
        reveal_strlit("quoteStart");
        assert(plain_upto(t, 10)) by {
            reveal_with_fuel(plain_upto, 11);
        }
        lemma_plain_word(t);
    }
    if t == "range"@ {
        reveal_strlit("range");
        assert(plain_upto(t, 5)) by {
            reveal_with_fuel(plain_upto, 6);
        }
        lemma_plain_word(t);
    }
    if t == "readerNeeded"@ {
        reveal_strlit("readerNeeded");
        assert(plain_upto(t, 12)) by {
            reveal_with_fuel(plain_upto, 13);
        }
        lemma_plain_word(t);
    }
    if t == "readsPredicate"@ {
        reveal_strlit("readsPredicate");
        assert(plain_upto(t, 14)) by {
            reveal_with_fuel(plain_upto, 15);
        }
        lemma_plain_word(t);
    }
    if t == "recordId"@ {
        reveal_strlit("recordId");
        assert(plain_upto(t, 8)) by {
            reveal_with_fuel(plain_upto, 9);
        }
        lemma_plain_word(t);
    }
    if t == "reference"@ {
        reveal_strlit("reference");
        assert(plain_upto(t, 9)) by {
            reveal_with_fuel(plain_upto, 10);
        }
        lemma_plain_word(t);
    }
    if t == "relativeValue"@ {
        reveal_strlit("relativeValue");
        assert(plain_upto(t, 13)) by {
            reveal_with_fuel(plain_upto, 14);
        }
        lemma_plain_word(t);
    }
    if t == "resolvedAt"@ {
        reveal_strlit("resolvedAt");
        assert(plain_upto(t, 10)) by {
            reveal_with_fuel(plain_upto, 11);
        }
        lemma_plain_word(t);
    }
    if t == "resolvedFrom"@ {
        reveal_strlit("resolvedFrom");
        assert(plain_upto(t, 12)) by {
            reveal_with_fuel(plain_upto, 13);
        }
        lemma_plain_word(t);
    }
    if t == "resolvedFromPrecision"@ {
        reveal_strlit("resolvedFromPrecision");
        assert(plain_upto(t, 21)) by {
            reveal_with_fuel(plain_upto, 22);
        }
        lemma_plain_word(t);
    }
    if t == "resolvedTo"@ {
        reveal_strlit("resolvedTo");
        assert(plain_upto(t, 10)) by {
            reveal_with_fuel(plain_upto, 11);
        }
        lemma_plain_word(t);
    }
    if t == "resolvedToPrecision"@ {
        reveal_strlit("resolvedToPrecision");
        assert(plain_upto(t, 19)) by {
            reveal_with_fuel(plain_upto, 20);
        }
        lemma_plain_word(t);
    }
    if t == "role"@ {
        reveal_strlit("role");
        assert(plain_upto(t, 4)) by {
            reveal_with_fuel(plain_upto, 5);
        }
        lemma_plain_word(t);
    }
    if t == "RuleCondition"@ {
        reveal_strlit("RuleCondition");
        assert(plain_upto(t, 13)) by {
            reveal_with_fuel(plain_upto, 14);
        }
        lemma_plain_word(t);
    }
    if t == "ruleDerived"@ {
        reveal_strlit("ruleDerived");
        assert(plain_upto(t, 11)) by {
            reveal_with_fuel(plain_upto, 12);
        }
        lemma_plain_word(t);
    }
    if t == "ruleKind"@ {
        reveal_strlit("ruleKind");
        assert(plain_upto(t, 8)) by {
            reveal_with_fuel(plain_upto, 9);
        }
        lemma_plain_word(t);
    }
    if t == "seq"@ {
        reveal_strlit("seq");
        assert(plain_upto(t, 3)) by {
            reveal_with_fuel(plain_upto, 4);
        }
        lemma_plain_word(t);
    }
    if t == "sha256"@ {
        reveal_strlit("sha256");
        assert(plain_upto(t, 6)) by {
            reveal_with_fuel(plain_upto, 7);
        }
        lemma_plain_word(t);
    }
    if t == "shape"@ {
        reveal_strlit("shape");
        assert(plain_upto(t, 5)) by {
            reveal_with_fuel(plain_upto, 6);
        }
        lemma_plain_word(t);
    }
    if t == "sizeBytes"@ {
        reveal_strlit("sizeBytes");
        assert(plain_upto(t, 9)) by {
            reveal_with_fuel(plain_upto, 10);
        }
        lemma_plain_word(t);
    }
    if t == "specificType"@ {
        reveal_strlit("specificType");
        assert(plain_upto(t, 12)) by {
            reveal_with_fuel(plain_upto, 13);
        }
        lemma_plain_word(t);
    }
    if t == "Statement"@ {
        reveal_strlit("Statement");
        assert(plain_upto(t, 9)) by {
            reveal_with_fuel(plain_upto, 10);
        }
        lemma_plain_word(t);
    }
    if t == "statementLayer"@ {
        reveal_strlit("statementLayer");
        assert(plain_upto(t, 14)) by {
            reveal_with_fuel(plain_upto, 15);
        }
        lemma_plain_word(t);
    }
    if t == "StatementQualifier"@ {
        reveal_strlit("StatementQualifier");
        assert(plain_upto(t, 18)) by {
            reveal_with_fuel(plain_upto, 19);
        }
        lemma_plain_word(t);
    }
    if t == "statementQualifier"@ {
        reveal_strlit("statementQualifier");
        assert(plain_upto(t, 18)) by {
            reveal_with_fuel(plain_upto, 19);
        }
        lemma_plain_word(t);
    }
    if t == "subClassOf"@ {
        reveal_strlit("subClassOf");
        assert(plain_upto(t, 10)) by {
            reveal_with_fuel(plain_upto, 11);
        }
        lemma_plain_word(t);
    }
    if t == "subject"@ {
        reveal_strlit("subject");
        assert(plain_upto(t, 7)) by {
            reveal_with_fuel(plain_upto, 8);
        }
        lemma_plain_word(t);
    }
    if t == "subjectType"@ {
        reveal_strlit("subjectType");
        assert(plain_upto(t, 11)) by {
            reveal_with_fuel(plain_upto, 12);
        }
        lemma_plain_word(t);
    }
    if t == "subPropertyOf"@ {
        reveal_strlit("subPropertyOf");
        assert(plain_upto(t, 13)) by {
            reveal_with_fuel(plain_upto, 14);
        }
        lemma_plain_word(t);
    }
    if t == "supersedes"@ {
        reveal_strlit("supersedes");
        assert(plain_upto(t, 10)) by {
            reveal_with_fuel(plain_upto, 11);
        }
        lemma_plain_word(t);
    }
    if t == "SymmetricProperty"@ {
        reveal_strlit("SymmetricProperty");
        assert(plain_upto(t, 17)) by {
            reveal_with_fuel(plain_upto, 18);
        }
        lemma_plain_word(t);
    }
}

proof fn lemma_words_t_to_z(t: Seq<char>)
    requires
        words_t_to_z(t),
    ensures
        plain_term(t),
{
    if t == "tag"@ {
        reveal_strlit("tag");
        assert(plain_upto(t, 3)) by {
            reveal_with_fuel(plain_upto, 4);
        }
        lemma_plain_word(t);
    }
    if t == "temporal"@ {
        reveal_strlit("temporal");
        assert(plain_upto(t, 8)) by {
            reveal_with_fuel(plain_upto, 9);
        }
        lemma_plain_word(t);
    }
    if t == "text"@ {
        reveal_strlit("text");
        assert(plain_upto(t, 4)) by {
            reveal_with_fuel(plain_upto, 5);
        }
        lemma_plain_word(t);
    }
    if t == "timeContext"@ {
        reveal_strlit("timeContext");
        assert(plain_upto(t, 11)) by {
            reveal_with_fuel(plain_upto, 12);
        }
        lemma_plain_word(t);
    }
    if t == "timeContextAt"@ {
        reveal_strlit("timeContextAt");
        assert(plain_upto(t, 13)) by {
            reveal_with_fuel(plain_upto, 14);
        }
        lemma_plain_word(t);
    }
    if t == "TimeMention"@ {
        reveal_strlit("TimeMention");
        assert(plain_upto(t, 11)) by {
            reveal_with_fuel(plain_upto, 12);
        }
        lemma_plain_word(t);
    }
    if t == "timeMention"@ {
        reveal_strlit("timeMention");
        assert(plain_upto(t, 11)) by {
            reveal_with_fuel(plain_upto, 12);
        }
        lemma_plain_word(t);
    }
    if t == "TransitiveProperty"@ {
        reveal_strlit("TransitiveProperty");
        assert(plain_upto(t, 18)) by {
            reveal_with_fuel(plain_upto, 19);
        }
        lemma_plain_word(t);
    }
    if t == "type"@ {
        reveal_strlit("type");
        assert(plain_upto(t, 4)) by {
            reveal_with_fuel(plain_upto, 5);
        }
        lemma_plain_word(t);
    }
    if t == "typeResolvedAt"@ {
        reveal_strlit("typeResolvedAt");
        assert(plain_upto(t, 14)) by {
            reveal_with_fuel(plain_upto, 15);
        }
        lemma_plain_word(t);
    }
    if t == "typeSource"@ {
        reveal_strlit("typeSource");
        assert(plain_upto(t, 10)) by {
            reveal_with_fuel(plain_upto, 11);
        }
        lemma_plain_word(t);
    }
    if t == "unit"@ {
        reveal_strlit("unit");
        assert(plain_upto(t, 4)) by {
            reveal_with_fuel(plain_upto, 5);
        }
        lemma_plain_word(t);
    }
    if t == "updatedAt"@ {
        reveal_strlit("updatedAt");
        assert(plain_upto(t, 9)) by {
            reveal_with_fuel(plain_upto, 10);
        }
        lemma_plain_word(t);
    }
    if t == "used"@ {
        reveal_strlit("used");
        assert(plain_upto(t, 4)) by {
            reveal_with_fuel(plain_upto, 5);
        }
        lemma_plain_word(t);
    }
    if t == "validFrom"@ {
        reveal_strlit("validFrom");
        assert(plain_upto(t, 9)) by {
            reveal_with_fuel(plain_upto, 10);
        }
        lemma_plain_word(t);
    }
    if t == "validFromGrade"@ {
        reveal_strlit("validFromGrade");
        assert(plain_upto(t, 14)) by {
            reveal_with_fuel(plain_upto, 15);
        }
        lemma_plain_word(t);
    }
    if t == "validFromPrecision"@ {
        reveal_strlit("validFromPrecision");
        assert(plain_upto(t, 18)) by {
            reveal_with_fuel(plain_upto, 19);
        }
        lemma_plain_word(t);
    }
    if t == "validThrough"@ {
        reveal_strlit("validThrough");
        assert(plain_upto(t, 12)) by {
            reveal_with_fuel(plain_upto, 13);
        }
        lemma_plain_word(t);
    }
    if t == "validThroughPrecision"@ {
        reveal_strlit("validThroughPrecision");
        assert(plain_upto(t, 21)) by {
            reveal_with_fuel(plain_upto, 22);
        }
        lemma_plain_word(t);
    }
    if t == "value"@ {
        reveal_strlit("value");
        assert(plain_upto(t, 5)) by {
            reveal_with_fuel(plain_upto, 6);
        }
        lemma_plain_word(t);
    }
    if t == "version"@ {
        reveal_strlit("version");
        assert(plain_upto(t, 7)) by {
            reveal_with_fuel(plain_upto, 8);
        }
        lemma_plain_word(t);
    }
    if t == "wasDerivedFrom"@ {
        reveal_strlit("wasDerivedFrom");
        assert(plain_upto(t, 14)) by {
            reveal_with_fuel(plain_upto, 15);
        }
        lemma_plain_word(t);
    }
    if t == "wasGeneratedBy"@ {
        reveal_strlit("wasGeneratedBy");
        assert(plain_upto(t, 14)) by {
            reveal_with_fuel(plain_upto, 15);
        }
        lemma_plain_word(t);
    }
    if t == "wasRevisionOf"@ {
        reveal_strlit("wasRevisionOf");
        assert(plain_upto(t, 13)) by {
            reveal_with_fuel(plain_upto, 14);
        }
        lemma_plain_word(t);
    }
}

/// The words that an export uses are plain.
pub broadcast proof fn lemma_export_word(t: Seq<char>)
    requires
        export_word(t),
    ensures
        #[trigger] plain_term(t),
{
    if words_a_to_c(t) {
        lemma_words_a_to_c(t);
    }
    if words_d_to_f(t) {
        lemma_words_d_to_f(t);
    }
    if words_g_to_p(t) {
        lemma_words_g_to_p(t);
    }
    if words_q_to_s(t) {
        lemma_words_q_to_s(t);
    }
    if words_t_to_z(t) {
        lemma_words_t_to_z(t);
    }
}

/// The datatypes of an export are valid.
pub proof fn lemma_datatypes_valid()
    ensures
        datatype_valid(XSD_STRING@),
        datatype_valid(XSD_BOOLEAN@),
        datatype_valid(XSD_INTEGER@),
        datatype_valid(XSD_DECIMAL@),
        datatype_valid(XSD_DATE@),
        datatype_valid(XSD_DATE_TIME@),
        datatype_valid(XSD_G_YEAR@),
        datatype_valid(XSD_G_YEAR_MONTH@),
{
    lemma_namespaces_plain();
    reveal_strlit("http://www.w3.org/1999/02/22-rdf-syntax-ns#");
    assert(rdf_iri("langString"@)[18] == '1');
    assert(datatype_valid(XSD_STRING@)) by {
        reveal_strlit("http://www.w3.org/2001/XMLSchema#");
        reveal_strlit("string");
        reveal_strlit("http://www.w3.org/2001/XMLSchema#string");
        assert(plain_upto("string"@, 6)) by {
            reveal_with_fuel(plain_upto, 7);
        }
        lemma_plain_word("string"@);
        assert(XSD@ + "string"@ =~= XSD_STRING@);
        assert(XSD_STRING@[18] == '2');
        lemma_http_term(XSD@, "string"@);
    }
    assert(datatype_valid(XSD_BOOLEAN@)) by {
        reveal_strlit("http://www.w3.org/2001/XMLSchema#");
        reveal_strlit("boolean");
        reveal_strlit("http://www.w3.org/2001/XMLSchema#boolean");
        assert(plain_upto("boolean"@, 7)) by {
            reveal_with_fuel(plain_upto, 8);
        }
        lemma_plain_word("boolean"@);
        assert(XSD@ + "boolean"@ =~= XSD_BOOLEAN@);
        assert(XSD_BOOLEAN@[18] == '2');
        lemma_http_term(XSD@, "boolean"@);
    }
    assert(datatype_valid(XSD_INTEGER@)) by {
        reveal_strlit("http://www.w3.org/2001/XMLSchema#");
        reveal_strlit("integer");
        reveal_strlit("http://www.w3.org/2001/XMLSchema#integer");
        assert(plain_upto("integer"@, 7)) by {
            reveal_with_fuel(plain_upto, 8);
        }
        lemma_plain_word("integer"@);
        assert(XSD@ + "integer"@ =~= XSD_INTEGER@);
        assert(XSD_INTEGER@[18] == '2');
        lemma_http_term(XSD@, "integer"@);
    }
    assert(datatype_valid(XSD_DECIMAL@)) by {
        reveal_strlit("http://www.w3.org/2001/XMLSchema#");
        reveal_strlit("decimal");
        reveal_strlit("http://www.w3.org/2001/XMLSchema#decimal");
        assert(plain_upto("decimal"@, 7)) by {
            reveal_with_fuel(plain_upto, 8);
        }
        lemma_plain_word("decimal"@);
        assert(XSD@ + "decimal"@ =~= XSD_DECIMAL@);
        assert(XSD_DECIMAL@[18] == '2');
        lemma_http_term(XSD@, "decimal"@);
    }
    assert(datatype_valid(XSD_DATE@)) by {
        reveal_strlit("http://www.w3.org/2001/XMLSchema#");
        reveal_strlit("date");
        reveal_strlit("http://www.w3.org/2001/XMLSchema#date");
        assert(plain_upto("date"@, 4)) by {
            reveal_with_fuel(plain_upto, 5);
        }
        lemma_plain_word("date"@);
        assert(XSD@ + "date"@ =~= XSD_DATE@);
        assert(XSD_DATE@[18] == '2');
        lemma_http_term(XSD@, "date"@);
    }
    assert(datatype_valid(XSD_DATE_TIME@)) by {
        reveal_strlit("http://www.w3.org/2001/XMLSchema#");
        reveal_strlit("dateTime");
        reveal_strlit("http://www.w3.org/2001/XMLSchema#dateTime");
        assert(plain_upto("dateTime"@, 8)) by {
            reveal_with_fuel(plain_upto, 9);
        }
        lemma_plain_word("dateTime"@);
        assert(XSD@ + "dateTime"@ =~= XSD_DATE_TIME@);
        assert(XSD_DATE_TIME@[18] == '2');
        lemma_http_term(XSD@, "dateTime"@);
    }
    assert(datatype_valid(XSD_G_YEAR@)) by {
        reveal_strlit("http://www.w3.org/2001/XMLSchema#");
        reveal_strlit("gYear");
        reveal_strlit("http://www.w3.org/2001/XMLSchema#gYear");
        assert(plain_upto("gYear"@, 5)) by {
            reveal_with_fuel(plain_upto, 6);
        }
        lemma_plain_word("gYear"@);
        assert(XSD@ + "gYear"@ =~= XSD_G_YEAR@);
        assert(XSD_G_YEAR@[18] == '2');
        lemma_http_term(XSD@, "gYear"@);
    }
    assert(datatype_valid(XSD_G_YEAR_MONTH@)) by {
        reveal_strlit("http://www.w3.org/2001/XMLSchema#");
        reveal_strlit("gYearMonth");
        reveal_strlit("http://www.w3.org/2001/XMLSchema#gYearMonth");
        assert(plain_upto("gYearMonth"@, 10)) by {
            reveal_with_fuel(plain_upto, 11);
        }
        lemma_plain_word("gYearMonth"@);
        assert(XSD@ + "gYearMonth"@ =~= XSD_G_YEAR_MONTH@);
        assert(XSD_G_YEAR_MONTH@[18] == '2');
        lemma_http_term(XSD@, "gYearMonth"@);
    }
}

} // verus!
