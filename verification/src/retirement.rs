//! What is known of a frame's exports once its graph has been retired.
//!
//! The execution layer schedules a graph and then tells in which state it
//! left each exported resource. The report keeps that by export, so that the
//! holder of an export handle can redeem it.

use vstd::prelude::*;
use crate::access::AccessType;
use crate::graph::{ExportedHandle, FrameGraph, FrameGraphView, Resource};
use crate::resource::ImageId;

verus! {

/// An exported image and the state its graph left it in.
#[derive(Clone, Copy, Debug, PartialEq, Eq, Structural)]
pub struct RetiredImage {
    pub resource: Resource,
    pub access: AccessType,
}

/// The entries of the report of `graph`, where `final_access` holds the
/// final state of each export in the order of the exports.
pub open spec fn retired_exports(graph: FrameGraphView, final_access: Seq<AccessType>) -> Seq<
    RetiredImage,
> {
    Seq::new(
        graph.exports.len(),
        |slot: int|
            RetiredImage { resource: graph.exported_resource(slot), access: final_access[slot] },
    )
}

/// Whether `entries` has an entry for `token`.
pub open spec fn report_contains(entries: Seq<RetiredImage>, token: ExportedHandle) -> bool {
    token.slot < entries.len()
}

/// Whether the entry for `token` in `entries` is an export of the persistent
/// image `image`.
pub open spec fn report_redeems(
    entries: Seq<RetiredImage>,
    token: ExportedHandle,
    image: ImageId,
) -> bool {
    &&& report_contains(entries, token)
    &&& entries[token.slot as int].resource matches Resource::ImportedImage { image: exported, .. }
    &&& exported == image
}

/// The report of a graph has exactly one entry for each export of the graph,
/// and the entry of an export holds the state that was reported for it.
pub proof fn lemma_report_covers_exports(graph: FrameGraphView, final_access: Seq<AccessType>)
    requires
        graph.wf(),
        final_access.len() == graph.exports.len(),
    ensures
        retired_exports(graph, final_access).len() == graph.exports.len(),
        forall|token: ExportedHandle|
            #[trigger] report_contains(retired_exports(graph, final_access), token)
                <==> token.slot < graph.exports.len(),
        forall|slot: int|
            0 <= slot < graph.exports.len() ==> (#[trigger] retired_exports(
                graph,
                final_access,
            )[slot]).access == final_access[slot],
{
}

/// The record of a retired graph: one entry for each of its exports.
pub struct RetirementReport {
    entries: Vec<RetiredImage>,
}

impl View for RetirementReport {
    type V = Seq<RetiredImage>;

    closed spec fn view(&self) -> Seq<RetiredImage> {
        self.entries@
    }
}

impl RetirementReport {
    /// Retires `graph`. `final_access` holds, for each export in order, the
    /// state in which the execution layer left the exported resource. There
    /// is a report exactly if it holds one state for each export.
    pub fn new(graph: FrameGraph, final_access: Vec<AccessType>) -> (report: Option<
        RetirementReport,
    >)
        requires
            graph@.wf(),
        ensures
            report is Some <==> final_access@.len() == graph@.exports.len(),
            report matches Some(r) ==> r@ == retired_exports(graph@, final_access@),
    {
        let count = graph.export_count();
        if final_access.len() != count {
            return None;
        }
        let mut entries: Vec<RetiredImage> = Vec::with_capacity(count);
        let mut slot: usize = 0;
        while slot < count
            invariant
                graph@.wf(),
                count == graph@.exports.len(),
                count == final_access@.len(),
                slot <= count,
                entries@.len() == slot,
                forall|k: int|
                    0 <= k < slot ==> #[trigger] entries@[k] == retired_exports(
                        graph@,
                        final_access@,
                    )[k],
            decreases count - slot,
        {
            let export = graph.export(ExportedHandle { slot });
            let resource = graph.resource(export.resource);
            entries.push(RetiredImage { resource, access: final_access[slot] });
            slot += 1;
        }
        Some(RetirementReport { entries })
    }

    /// Number of entries.
    pub fn len(&self) -> (n: usize)
        ensures
            n == self@.len(),
    {
        self.entries.len()
    }

    /// Whether the report has an entry for `token`.
    pub fn contains(&self, token: ExportedHandle) -> (found: bool)
        ensures
            found == report_contains(self@, token),
    {
        token.slot < self.entries.len()
    }

    /// Whether the entry for `token` is an export of the persistent image
    /// `image`.
    pub fn redeems(&self, token: ExportedHandle, image: ImageId) -> (found: bool)
        ensures
            found == report_redeems(self@, token, image),
    {
        if token.slot < self.entries.len() {
            match self.entries[token.slot].resource {
                Resource::ImportedImage { image: exported, .. } => exported == image,
                _ => false,
            }
        } else {
            false
        }
    }

    /// The exported image behind `token` and the state it was left in.
    pub fn get_image(&self, token: ExportedHandle) -> (entry: (Resource, AccessType))
        requires
            report_contains(self@, token),
        ensures
            entry.0 == self@[token.slot as int].resource,
            entry.1 == self@[token.slot as int].access,
    {
        let entry = self.entries[token.slot];
        (entry.resource, entry.access)
    }
}

} // verus!
