//! Extraction: the frame-boundary copy of simulation-side instance records
//! into the render-side store.
//!
//! The simulation world owns an `InstanceMaterialData` per host. Once per
//! frame, after simulation state settles, the render side takes a deep copy
//! of it, so that simulation mutation in the next frame cannot corrupt
//! in-flight render data. An entity without the component is silently
//! skipped. The scheduling of the copy is the render framework's business;
//! the copy itself is here.
use vstd::prelude::*;

use crate::record::InstanceRecord;

verus! {

/// The per-host store of instance records: one record per live child copy,
/// in child traversal order.
pub struct InstanceMaterialData(pub Vec<InstanceRecord>);

impl InstanceMaterialData {
    /// The records as a sequence, the store's mathematical content.
    pub open spec fn view(self) -> Seq<InstanceRecord> {
        self.0@
    }
}

/// Deep-copies a vector of records, element for element.
fn clone_records(records: &Vec<InstanceRecord>) -> (r: Vec<InstanceRecord>)
    ensures
        r@ == records@,
{
    let mut out: Vec<InstanceRecord> = Vec::new();
    let n: usize = records.len();
    let mut i: usize = 0;
    while i < n
        invariant
            n == records@.len(),
            i <= n,
            out@ == records@.take(i as int),
        decreases n - i,
    {
        out.push(records[i]);
        assert(out@ =~= records@.take(i + 1 as int));
        i = i + 1;
    }
    assert(out@ =~= records@);
    out
}

/// Snapshots a host's simulation-side records for the render side.
///
/// An entity that does not carry the component yields `None` and is skipped;
/// one that does yields an equal, independently owned copy.
pub fn extract_component(item: Option<&InstanceMaterialData>) -> (r: Option<InstanceMaterialData>)
    ensures
        r is Some <==> item is Some,
        r is Some ==> (r->0)@ == (item->0)@,
{
    match item {
        None => None,
        Some(data) => Some(InstanceMaterialData(clone_records(&data.0))),
    }
}

} // verus!
