//! Rows of a second table, gathered under the row that they belong to.
use crate::uuid::Uuid;
use std::collections::HashMap;
use vstd::prelude::*;

verus! {

broadcast use vstd::std_specs::hash::group_hash_axioms;

/// Those of the rows that belong to `id`, in order.
pub open spec fn belonging<T>(rows: Seq<T>, key: spec_fn(T) -> u128, id: u128) -> Seq<T>
    decreases rows.len(),
{
    if rows.len() == 0 {
        Seq::empty()
    } else {
        let before = belonging(rows.drop_last(), key, id);
        if key(rows.last()) == id {
            before.push(rows.last())
        } else {
            before
        }
    }
}

/// The groups of a sequence of rows: under each identifier the rows that belong to it.
pub open spec fn gathered<T>(
    groups: Map<u128, Seq<T>>,
    rows: Seq<T>,
    key: spec_fn(T) -> u128,
) -> bool {
    &&& forall|id: u128|
        #[trigger] groups.dom().contains(id) <==> belonging(rows, key, id).len() > 0
    &&& forall|id: u128|
        groups.dom().contains(id) ==> #[trigger] groups[id] == belonging(rows, key, id)
}

/// Rows under the identifiers that they belong to.
pub struct Groups<T> {
    map: HashMap<u128, Vec<T>>,
}

impl<T> View for Groups<T> {
    type V = Map<u128, Seq<T>>;

    closed spec fn view(&self) -> Map<u128, Seq<T>> {
        self.map@.map_values(|v: Vec<T>| v@)
    }
}

impl<T> Groups<T> {
    /// No groups.
    pub fn new() -> (groups: Groups<T>)
        ensures
            groups@ == Map::<u128, Seq<T>>::empty(),
    {
        let groups = Groups { map: HashMap::new() };
        proof {
            assert(groups@ =~= Map::empty());
        }
        groups
    }

    /// Puts a row behind those that are under `id`.
    pub fn add_row(&mut self, id: u128, row: T)
        ensures
            final(self)@ == old(self)@.insert(
                id,
                (if old(self)@.dom().contains(id) {
                    old(self)@[id]
                } else {
                    Seq::empty()
                }).push(row),
            ),
    {
        let mut group: Vec<T> = match self.map.remove(&id) {
            Some(group) => group,
            None => Vec::new(),
        };
        group.push(row);
        self.map.insert(id, group);
        proof {
            assert(self@ =~= old(self)@.insert(id, group@));
        }
    }

    /// Takes the rows under `id` out.
    pub fn take(&mut self, id: u128) -> (group: Option<Vec<T>>)
        ensures
            match group {
                Some(g) => old(self)@.dom().contains(id) && g@ == old(self)@[id],
                None => !old(self)@.dom().contains(id),
            },
            final(self)@ == old(self)@.remove(id),
    {
        let group: Option<Vec<T>> = self.map.remove(&id);
        proof {
            assert(self@ =~= old(self)@.remove(id));
        }
        group
    }
}

/// Gathers rows under the identifiers that `key` gives them.
pub proof fn lemma_gathered_push<T>(
    groups: Map<u128, Seq<T>>,
    rows: Seq<T>,
    key: spec_fn(T) -> u128,
    row: T,
)
    requires
        gathered(groups, rows, key),
    ensures
        gathered(
            groups.insert(
                key(row),
                (if groups.dom().contains(key(row)) {
                    groups[key(row)]
                } else {
                    Seq::empty()
                }).push(row),
            ),
            rows.push(row),
            key,
        ),
{
    let now = groups.insert(
        key(row),
        (if groups.dom().contains(key(row)) {
            groups[key(row)]
        } else {
            Seq::empty()
        }).push(row),
    );
    assert(rows.push(row).drop_last() =~= rows);
    assert forall|id: u128| #[trigger] now.dom().contains(id) <==> belonging(
        rows.push(row),
        key,
        id,
    ).len() > 0 by {
        assert(groups.dom().contains(id) <==> belonging(rows, key, id).len() > 0);
    }
    assert forall|id: u128| now.dom().contains(id) implies #[trigger] now[id] == belonging(
        rows.push(row),
        key,
        id,
    ) by {
        assert(groups.dom().contains(id) <==> belonging(rows, key, id).len() > 0);
        if !groups.dom().contains(id) {
            assert(belonging(rows, key, id) =~= Seq::empty());
        }
    }
}

/// Row `i` is the first with its identifier.
pub open spec fn first_of(ids: Seq<Uuid>, i: int) -> bool {
    forall|j: int| 0 <= j < i ==> (#[trigger] ids[j]).value != ids[i].value
}

/// The rows that go to row `i`: those that belong to its identifier. Should two rows have one
/// identifier, the first gets them.
pub open spec fn share<T>(
    ids: Seq<Uuid>,
    i: int,
    rows: Seq<T>,
    key: spec_fn(T) -> u128,
) -> Seq<T> {
    if first_of(ids, i) {
        belonging(rows, key, ids[i].value)
    } else {
        Seq::empty()
    }
}

/// What is left in the groups when the first `n` identifiers have taken theirs.
pub open spec fn left_over<T>(
    groups: Map<u128, Seq<T>>,
    rows: Seq<T>,
    key: spec_fn(T) -> u128,
    ids: Seq<Uuid>,
    n: int,
) -> bool {
    &&& forall|id: u128|
        #[trigger] groups.dom().contains(id) <==> belonging(rows, key, id).len() > 0 && (forall|
            j: int,
        |
            0 <= j < n ==> (#[trigger] ids[j]).value != id)
    &&& forall|id: u128|
        groups.dom().contains(id) ==> #[trigger] groups[id] == belonging(rows, key, id)
}

/// At the start all groups are there.
pub proof fn lemma_left_over_start<T>(
    groups: Map<u128, Seq<T>>,
    rows: Seq<T>,
    key: spec_fn(T) -> u128,
    ids: Seq<Uuid>,
)
    requires
        gathered(groups, rows, key),
    ensures
        left_over(groups, rows, key, ids, 0),
{
}

/// Row `i` takes its share, or finds nothing.
pub proof fn lemma_left_over_next<T>(
    groups: Map<u128, Seq<T>>,
    rows: Seq<T>,
    key: spec_fn(T) -> u128,
    ids: Seq<Uuid>,
    i: int,
)
    requires
        left_over(groups, rows, key, ids, i),
        0 <= i < ids.len(),
    ensures
        left_over(groups.remove(ids[i].value), rows, key, ids, i + 1),
        groups.dom().contains(ids[i].value) <==> share(ids, i, rows, key).len() > 0,
        groups.dom().contains(ids[i].value) ==> groups[ids[i].value] == share(ids, i, rows, key),
{
    let now = groups.remove(ids[i].value);
    assert forall|id: u128| #[trigger] now.dom().contains(id) <==> belonging(rows, key, id).len() > 0
        && (forall|j: int| 0 <= j < i + 1 ==> (#[trigger] ids[j]).value != id) by {
        assert(now.dom().contains(id) <==> groups.dom().contains(id) && id != ids[i].value);
        if belonging(rows, key, id).len() > 0 && (forall|j: int|
            0 <= j < i + 1 ==> (#[trigger] ids[j]).value != id) {
            assert(ids[i].value != id);
        }
    }
}

} // verus!
