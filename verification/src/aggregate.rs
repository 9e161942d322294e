//! The instance aggregator: one packed record per live child, every frame.
//!
//! A host owns an ordered set of children; each child carries a translation
//! (through its transform), a scale and a color. Aggregation clears the
//! host's buffer and appends one `InstanceRecord` per child, in child
//! traversal order. A host with zero children gets an empty buffer, which is
//! valid. A child relationship that points at a missing entity is a
//! construction bug, not a runtime condition: resolution requires every
//! declared child to exist.
use vstd::prelude::*;

use crate::extract::InstanceMaterialData;
use crate::record::ColorWords;
use crate::record::InstanceRecord;
use crate::record::Vec3Words;

verus! {

/// One attribute-bearing child of a host: its transform's translation, its
/// scale and its color, each component an IEEE-754 bit word.
#[derive(Clone, Copy, Debug, PartialEq, Eq, Structural)]
pub struct Child {
    pub translation: Vec3Words,
    pub scale: u32,
    pub color: ColorWords,
}

/// The record a child contributes to its host's instance buffer.
pub open spec fn record_of(c: Child) -> InstanceRecord {
    InstanceRecord { position: c.translation, scale: c.scale, color: c.color }
}

/// The aggregated buffer of a child set: a faithful, order-stable projection.
pub open spec fn aggregate_spec(children: Seq<Child>) -> Seq<InstanceRecord> {
    children.map_values(|c: Child| record_of(c))
}

/// Aggregation is a faithful projection: the buffer has exactly one record
/// per live child, and the record at each position carries that child's
/// translation, scale and color.
pub proof fn lemma_aggregation_faithful(children: Seq<Child>)
    ensures
        aggregate_spec(children).len() == children.len(),
        forall|i: int|
            0 <= i < children.len() ==> aggregate_spec(children)[i] == record_of(children[i]),
{
}

/// Aggregation is idempotent: two runs over an unchanged child set fill the
/// buffer with identical contents.
pub proof fn lemma_aggregation_idempotent(
    children: Seq<Child>,
    first: Seq<InstanceRecord>,
    second: Seq<InstanceRecord>,
)
    requires
        first == aggregate_spec(children),
        second == aggregate_spec(children),
    ensures
        first == second,
{
}

/// A host with zero children aggregates to a zero-length buffer.
pub proof fn lemma_zero_children_empty_buffer()
    ensures
        aggregate_spec(Seq::<Child>::empty()) == Seq::<InstanceRecord>::empty(),
{
    assert(aggregate_spec(Seq::<Child>::empty()) =~= Seq::<InstanceRecord>::empty());
}

/// Rewrites a host's instance buffer from its current live children: clears
/// it, then appends one record per child in traversal order.
pub fn prepare_buffer(host: &mut InstanceMaterialData, children: &Vec<Child>)
    ensures
        final(host)@ == aggregate_spec(children@),
{
    host.0.clear();
    let n: usize = children.len();
    let mut i: usize = 0;
    while i < n
        invariant
            n == children@.len(),
            i <= n,
            host.0@ == aggregate_spec(children@.take(i as int)),
        decreases n - i,
    {
        let c = children[i];
        host.0.push(InstanceRecord { position: c.translation, scale: c.scale, color: c.color });
        assert(host.0@ =~= aggregate_spec(children@.take(i + 1 as int)));
        i = i + 1;
    }
    assert(children@.take(n as int) =~= children@);
}

/// The render-side table of extracted children, keyed by entity identifier.
pub struct ChildStore {
    pub entries: Vec<(u64, Child)>,
}

/// First entry of `entries` whose key is `id`, if any.
pub open spec fn find_child(entries: Seq<(u64, Child)>, id: u64) -> Option<Child>
    decreases entries.len(),
{
    if entries.len() == 0 {
        None
    } else if entries[0].0 == id {
        Some(entries[0].1)
    } else {
        find_child(entries.skip(1), id)
    }
}

impl ChildStore {
    /// Looks an entity's child attributes up.
    pub fn get(&self, id: u64) -> (r: Option<&Child>)
        ensures
            match r {
                Some(c) => find_child(self.entries@, id) == Some(*c),
                None => find_child(self.entries@, id) is None,
            },
    {
        let n: usize = self.entries.len();
        let mut i: usize = 0;
        assert(self.entries@.skip(0) =~= self.entries@);
        while i < n
            invariant
                n == self.entries@.len(),
                i <= n,
                find_child(self.entries@, id) == find_child(self.entries@.skip(i as int), id),
            decreases n - i,
        {
            if self.entries[i].0 == id {
                assert(find_child(self.entries@.skip(i as int), id) == Some(
                    self.entries@[i as int].1,
                ));
                return Some(&self.entries[i].1);
            }
            assert(self.entries@.skip(i as int).skip(1) =~= self.entries@.skip(i + 1 as int));
            i = i + 1;
        }
        assert(self.entries@.skip(n as int) =~= Seq::<(u64, Child)>::empty());
        None
    }
}

/// Resolves a host's declared child identifiers against the child table.
///
/// Every declared child must exist: a dangling child relationship is an
/// invariant violation of the scene's construction, excluded here rather
/// than recovered from.
pub fn resolve_children(ids: &Vec<u64>, store: &ChildStore) -> (r: Vec<Child>)
    requires
        forall|i: int| 0 <= i < ids@.len() ==> find_child(store.entries@, ids@[i]) is Some,
    ensures
        r@.len() == ids@.len(),
        forall|i: int|
            0 <= i < ids@.len() ==> Some(r@[i]) == find_child(store.entries@, ids@[i]),
{
    let n: usize = ids.len();
    let mut out: Vec<Child> = Vec::new();
    let mut i: usize = 0;
    while i < n
        invariant
            n == ids@.len(),
            i <= n,
            out@.len() == i,
            forall|j: int| 0 <= j < n ==> find_child(store.entries@, ids@[j]) is Some,
            forall|j: int| 0 <= j < i ==> Some(out@[j]) == find_child(store.entries@, ids@[j]),
        decreases n - i,
    {
        let c = match store.get(ids[i]) {
            Some(c) => *c,
            None => {
                proof {
                    assert(find_child(store.entries@, ids@[i as int]) is Some);
                }
                unreached()
            },
        };
        out.push(c);
        i = i + 1;
    }
    out
}

} // verus!
