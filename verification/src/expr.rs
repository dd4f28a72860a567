//! Formulas: the relations that they read.
use crate::json::{json_str, Json, JsonView};
use crate::uuid::{uuid_spelled, Uuid};
use vstd::prelude::*;

verus! {

/// The identifier that an `attr` leaf holds, if it holds one.
pub open spec fn leaf_id(leaf: JsonView) -> Option<Uuid> {
    match json_str(leaf) {
        Some(s) => uuid_spelled(s),
        None => None,
    }
}

/// The relations that a formula reads, in the order in which they stand in it. A formula is a leaf
/// `{"attr": …}` or `{"const": …}`, or a node `{"op": …, "l": …, "r": …}`. A leaf whose value spells
/// no identifier counts as an unknown relation.
pub open spec fn expr_ids(v: JsonView) -> Seq<Option<Uuid>>
    decreases v,
{
    match v {
        JsonView::Object(fields) => if fields.dom().contains("attr"@) {
            seq![leaf_id(fields["attr"@])]
        } else if fields.dom().contains("const"@) {
            Seq::empty()
        } else if fields.dom().contains("op"@) {
            (if fields.dom().contains("l"@) {
                expr_ids(fields["l"@])
            } else {
                Seq::empty()
            }) + (if fields.dom().contains("r"@) {
                expr_ids(fields["r"@])
            } else {
                Seq::empty()
            })
        } else {
            Seq::empty()
        },
        _ => Seq::empty(),
    }
}

/// Puts the relations that a formula reads behind those in `out`.
pub fn expr_predicate_ids(raw: &Json, out: &mut Vec<Option<Uuid>>)
    ensures
        final(out)@ == old(out)@ + expr_ids(raw@),
    decreases raw@,
{
    if !raw.is_object() {
        return ;
    }
    if let Some(a) = raw.get("attr") {
        let id: Option<Uuid> = match a.as_str() {
            Some(s) => Uuid::parse_str(s),
            None => None,
        };
        out.push(id);
    } else if raw.get("const").is_some() {
        // A constant reads nothing.
    } else if raw.get("op").is_some() {
        if let Some(l) = raw.get("l") {
            expr_predicate_ids(l, out);
        }
        if let Some(r) = raw.get("r") {
            expr_predicate_ids(r, out);
        }
    }
}

} // verus!
