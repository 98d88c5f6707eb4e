//! An image whose contents live on from frame to frame.
//!
//! Besides the image itself the handle keeps the state that the last retired
//! graph left the image in, and the export that is still awaiting retirement,
//! if there is one. While an export is outstanding the kept state is stale:
//! the image can neither be imported nor exported again until the report of
//! the graph it was exported from has been applied.

use vstd::prelude::*;
use crate::access::AccessType;
use crate::graph::{ExportedHandle, FrameGraph, FrameGraphView, Handle, Resource, ResourceKind};
use crate::resource::{ImageId, ImageUsage};
use crate::retirement::{report_redeems, RetiredImage, RetirementReport};

verus! {

/// A use of a persistent image that the frame protocol rules out.
#[derive(Clone, Copy, Debug, PartialEq, Eq, Structural)]
pub enum ProtocolError {
    /// The image was to be imported while an export of it awaits retirement.
    RetirementPending,
    /// The image was to be exported while an earlier export of it awaits
    /// retirement.
    AlreadyExported,
}

/// A persistent image as a mathematical value.
pub struct TemporalImageView {
    pub resource: ImageId,
    pub access_type: AccessType,
    pub pending_export: Option<ExportedHandle>,
}

impl TemporalImageView {
    /// A freshly allocated image: never accessed, nothing outstanding.
    pub open spec fn fresh(resource: ImageId) -> TemporalImageView {
        TemporalImageView { resource, access_type: AccessType::Nothing, pending_export: None }
    }

    /// No export awaits retirement.
    pub open spec fn idle(self) -> bool {
        self.pending_export is None
    }

    /// The table entry under which the image enters a graph.
    pub open spec fn import_entry(self) -> Resource {
        Resource::ImportedImage { image: self.resource, access: self.access_type }
    }

    /// Whether `handle` names this image in `graph`.
    pub open spec fn named_by(self, graph: FrameGraphView, handle: Handle) -> bool {
        &&& graph.holds_image(handle)
        &&& graph.resources[handle.index as int] matches Resource::ImportedImage { image, .. }
        &&& image == self.resource
    }

    /// The image with `token` recorded as its outstanding export.
    pub open spec fn exported(self, token: ExportedHandle) -> TemporalImageView {
        TemporalImageView { pending_export: Some(token), ..self }
    }

    /// The image after the report `report` has been applied: the outstanding
    /// export, if there is one, is redeemed for the state the report holds.
    pub open spec fn retired(self, report: Seq<RetiredImage>) -> TemporalImageView {
        match self.pending_export {
            Some(token) => TemporalImageView {
                access_type: report[token.slot as int].access,
                pending_export: None,
                ..self
            },
            None => self,
        }
    }
}

/// A persistent image together with its last known state.
pub struct TemporalImage {
    resource: ImageId,
    access_type: AccessType,
    last_rg_handle: Option<ExportedHandle>,
}

impl View for TemporalImage {
    type V = TemporalImageView;

    closed spec fn view(&self) -> TemporalImageView {
        TemporalImageView {
            resource: self.resource,
            access_type: self.access_type,
            pending_export: self.last_rg_handle,
        }
    }
}

impl TemporalImage {
    /// Takes charge of a freshly allocated image.
    pub fn new(resource: ImageId) -> (image: TemporalImage)
        ensures
            image@ == TemporalImageView::fresh(resource),
    {
        TemporalImage { resource, access_type: AccessType::Nothing, last_rg_handle: None }
    }

    /// The image that the handle stands for.
    pub fn resource(&self) -> (resource: ImageId)
        ensures
            resource == self@.resource,
    {
        self.resource
    }

    /// The state that the last applied report left the image in.
    pub fn access_type(&self) -> (access: AccessType)
        ensures
            access == self@.access_type,
    {
        self.access_type
    }

    /// The export that awaits retirement, if there is one.
    pub fn pending_export(&self) -> (token: Option<ExportedHandle>)
        ensures
            token == self@.pending_export,
    {
        self.last_rg_handle
    }

    /// Enters the image into `rg` in its last known state. Nothing changes
    /// on the handle. While an export awaits retirement that state is stale,
    /// and the import is refused.
    pub fn import_into(&self, rg: &mut FrameGraph) -> (result: Result<Handle, ProtocolError>)
        requires
            old(rg)@.wf(),
        ensures
            final(rg)@.wf(),
            result is Ok <==> self@.idle(),
            result matches Ok(handle) ==> {
                &&& final(rg)@ == old(rg)@.with_resource(self@.import_entry())
                &&& handle == old(rg)@.next_handle(ResourceKind::Image)
                &&& self@.named_by(final(rg)@, handle)
            },
            result matches Err(error) ==> {
                &&& error == ProtocolError::RetirementPending
                &&& final(rg)@ == old(rg)@
            },
    {
        match self.last_rg_handle {
            Some(_) => Err(ProtocolError::RetirementPending),
            None => Ok(rg.import_image(self.resource, self.access_type)),
        }
    }

    /// Asks `rg` to make the image's final state observable, and records the
    /// export as outstanding. `handle` is the name under which the image was
    /// imported into `rg`; `usage` says what the image will be used for
    /// afterwards. Refused while an earlier export awaits retirement.
    pub fn export_from(&mut self, rg: &mut FrameGraph, handle: Handle, usage: ImageUsage) -> (result:
        Result<ExportedHandle, ProtocolError>)
        requires
            old(rg)@.wf(),
            old(self)@.named_by(old(rg)@, handle),
        ensures
            final(rg)@.wf(),
            result is Ok <==> old(self)@.idle(),
            result matches Ok(token) ==> {
                &&& token == old(rg)@.next_export()
                &&& final(rg)@ == old(rg)@.with_export(handle, usage)
                &&& final(self)@ == old(self)@.exported(token)
            },
            result matches Err(error) ==> {
                &&& error == ProtocolError::AlreadyExported
                &&& final(rg)@ == old(rg)@
                &&& final(self)@ == old(self)@
            },
    {
        match self.last_rg_handle {
            Some(_) => Err(ProtocolError::AlreadyExported),
            None => {
                let token = rg.export_image(handle, usage);
                self.last_rg_handle = Some(token);
                Ok(token)
            },
        }
    }

    /// Redeems the outstanding export `token` against the report of the graph
    /// it was made in: the image takes the state the report holds for it and
    /// is idle again.
    pub fn apply_retirement(&mut self, report: &RetirementReport, token: ExportedHandle)
        requires
            old(self)@.pending_export == Some(token),
            report_redeems(report@, token, old(self)@.resource),
        ensures
            final(self)@ == old(self)@.retired(report@),
            final(self)@.idle(),
            final(self)@.access_type == report@[token.slot as int].access,
    {
        self.access_type = report.get_image(token).1;
        self.last_rg_handle = None;
    }
}

/// An exported image can be neither exported nor imported again before its
/// export is retired, and after retirement it can be both.
pub proof fn lemma_export_is_exclusive_until_retired(
    image: TemporalImageView,
    token: ExportedHandle,
    report: Seq<RetiredImage>,
)
    requires
        image.idle(),
    ensures
        !image.exported(token).idle(),
        image.exported(token).retired(report).idle(),
{
}

/// What an image is imported with after retirement is the state that the
/// report holds for its export, whatever state it had before.
pub proof fn lemma_retired_state_is_imported(
    image: TemporalImageView,
    token: ExportedHandle,
    report: Seq<RetiredImage>,
)
    requires
        image.idle(),
    ensures
        image.exported(token).retired(report).import_entry() == (Resource::ImportedImage {
            image: image.resource,
            access: report[token.slot as int].access,
        }),
{
}

} // verus!
