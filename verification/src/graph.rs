//! The graph of GPU operations that a client declares for one frame.
//!
//! A graph is built fresh for every frame, handed to the execution layer once
//! and then retired. Resources are named inside it by handles that mean
//! something only together with the graph that issued them. An export marks a
//! resource whose final state must be observable once the graph is retired;
//! the report of a retired graph holds one entry for every export.

use vstd::prelude::*;
use crate::access::AccessType;
use crate::resource::{BufferId, ImageDesc, ImageId, ImageUsage, RenderPassId};

verus! {

/// What a declared operation does.
#[derive(Clone, Copy, Debug, PartialEq, Eq, Structural)]
pub enum PassKind {
    /// Resets a depth image to the far plane.
    ClearDepth,
    /// Fills the distance field with its initial contents.
    SeedSdf,
    /// Applies this frame's edit to the distance field.
    EditSdf,
    /// Finds the occupied bricks of the distance field.
    CalculateSdfBricksMeta,
    /// Fills a colour image with one colour. Each channel is given as the
    /// bit pattern of a single-precision number.
    ClearColor { red: u32, green: u32, blue: u32, alpha: u32 },
    /// Draws the occupied bricks with the given render pass.
    RasterSdf { render_pass: RenderPassId },
}

/// Whether a resource is an image or a buffer.
#[derive(Clone, Copy, Debug, PartialEq, Eq, Structural)]
pub enum ResourceKind {
    Image,
    Buffer,
}

/// An entry of a graph's resource table.
#[derive(Clone, Copy, Debug, PartialEq, Eq, Structural)]
pub enum Resource {
    /// An image that outlives the graph, with the state it enters in.
    ImportedImage { image: ImageId, access: AccessType },
    /// A buffer that outlives the graph, with the state it enters in.
    ImportedBuffer { buffer: BufferId, access: AccessType },
    /// An image that lives for this graph only.
    TransientImage { desc: ImageDesc },
    /// A buffer that lives for this graph only. The operation that fills it
    /// decides its size.
    TransientBuffer,
}

impl Resource {
    pub open spec fn spec_kind(self) -> ResourceKind {
        match self {
            Resource::ImportedImage { .. } | Resource::TransientImage { .. } => ResourceKind::Image,
            Resource::ImportedBuffer { .. } | Resource::TransientBuffer => ResourceKind::Buffer,
        }
    }

    /// Whether the entry is an image or a buffer.
    #[verifier::when_used_as_spec(spec_kind)]
    pub fn kind(self) -> (kind: ResourceKind)
        ensures
            kind == self.spec_kind(),
    {
        match self {
            Resource::ImportedImage { .. } | Resource::TransientImage { .. } => ResourceKind::Image,
            Resource::ImportedBuffer { .. } | Resource::TransientBuffer => ResourceKind::Buffer,
        }
    }

    pub open spec fn spec_entry_access(self) -> AccessType {
        match self {
            Resource::ImportedImage { access, .. } => access,
            Resource::ImportedBuffer { access, .. } => access,
            _ => AccessType::Nothing,
        }
    }

    /// The state in which the resource enters the graph: the state it was
    /// imported with, or no access at all for a transient resource, which has
    /// nothing to carry over.
    #[verifier::when_used_as_spec(spec_entry_access)]
    pub fn entry_access(self) -> (access: AccessType)
        ensures
            access == self.spec_entry_access(),
    {
        match self {
            Resource::ImportedImage { access, .. } => access,
            Resource::ImportedBuffer { access, .. } => access,
            _ => AccessType::Nothing,
        }
    }
}

/// Names a resource inside the graph that issued the handle.
#[derive(Clone, Copy, Debug, PartialEq, Eq, Structural)]
pub struct Handle {
    pub index: usize,
    pub kind: ResourceKind,
}

/// Names an export, and with it the entry of the report that will hold the
/// exported resource's final state.
#[derive(Clone, Copy, Debug, PartialEq, Eq, Structural)]
pub struct ExportedHandle {
    pub slot: usize,
}

/// A declared operation with the resources it reads and writes.
#[derive(Debug)]
pub struct Operation {
    pub pass: PassKind,
    pub reads: Vec<Handle>,
    pub writes: Vec<Handle>,
}

/// An operation as a mathematical value.
pub struct OperationView {
    pub pass: PassKind,
    pub reads: Seq<Handle>,
    pub writes: Seq<Handle>,
}

impl View for Operation {
    type V = OperationView;

    open spec fn view(&self) -> OperationView {
        OperationView { pass: self.pass, reads: self.reads@, writes: self.writes@ }
    }
}

/// A resource marked as observable after the graph, with its intended use.
#[derive(Clone, Copy, Debug, PartialEq, Eq, Structural)]
pub struct Export {
    pub resource: Handle,
    pub usage: ImageUsage,
}

/// A graph as a mathematical value: the resource table, the operations in
/// the order of their declaration, and the exports in the order of theirs.
pub struct FrameGraphView {
    pub resources: Seq<Resource>,
    pub operations: Seq<OperationView>,
    pub exports: Seq<Export>,
}

impl FrameGraphView {
    /// The graph that nothing was declared in.
    pub open spec fn empty() -> FrameGraphView {
        FrameGraphView { resources: Seq::empty(), operations: Seq::empty(), exports: Seq::empty() }
    }

    /// Whether `handle` names a resource of this graph, of the kind it claims.
    pub open spec fn holds(self, handle: Handle) -> bool {
        &&& handle.index < self.resources.len()
        &&& self.resources[handle.index as int].kind() == handle.kind
    }

    /// Whether each handle of `handles` names a resource of this graph.
    pub open spec fn holds_all(self, handles: Seq<Handle>) -> bool {
        forall|k: int| 0 <= k < handles.len() ==> self.holds(#[trigger] handles[k])
    }

    /// Whether `handle` names an image of this graph.
    pub open spec fn holds_image(self, handle: Handle) -> bool {
        self.holds(handle) && handle.kind == ResourceKind::Image
    }

    /// Every handle that the graph mentions names one of its own resources,
    /// every export is an image, and the tables are no longer than a machine
    /// can index.
    pub open spec fn wf(self) -> bool {
        &&& self.resources.len() <= usize::MAX
        &&& self.exports.len() <= usize::MAX
        &&& forall|i: int|
            0 <= i < self.operations.len() ==> self.holds_all(
                (#[trigger] self.operations[i]).reads,
            )
        &&& forall|i: int|
            0 <= i < self.operations.len() ==> self.holds_all(
                (#[trigger] self.operations[i]).writes,
            )
        &&& forall|i: int|
            0 <= i < self.exports.len() ==> self.holds_image((#[trigger] self.exports[i]).resource)
    }

    /// The handle that the next resource of kind `kind` will get.
    pub open spec fn next_handle(self, kind: ResourceKind) -> Handle {
        Handle { index: self.resources.len() as usize, kind }
    }

    /// The handle that the next export will get.
    pub open spec fn next_export(self) -> ExportedHandle {
        ExportedHandle { slot: self.exports.len() as usize }
    }

    /// The graph with one more resource.
    pub open spec fn with_resource(self, resource: Resource) -> FrameGraphView {
        FrameGraphView { resources: self.resources.push(resource), ..self }
    }

    /// The graph with one more operation, declared after all others.
    pub open spec fn with_operation(
        self,
        pass: PassKind,
        reads: Seq<Handle>,
        writes: Seq<Handle>,
    ) -> FrameGraphView {
        FrameGraphView {
            operations: self.operations.push(OperationView { pass, reads, writes }),
            ..self
        }
    }

    /// The graph with one more export.
    pub open spec fn with_export(self, resource: Handle, usage: ImageUsage) -> FrameGraphView {
        FrameGraphView { exports: self.exports.push(Export { resource, usage }), ..self }
    }

    /// Whether an operation of kind `pass` was declared.
    pub open spec fn declares(self, pass: PassKind) -> bool {
        exists|i: int| 0 <= i < self.operations.len() && (#[trigger] self.operations[i]).pass == pass
    }

    /// Whether operation `i` touches the resource that `handle` names.
    pub open spec fn touches(self, i: int, handle: Handle) -> bool {
        self.operations[i].reads.contains(handle) || self.operations[i].writes.contains(handle)
    }

    /// Whether the execution layer must keep operation `first` before
    /// operation `second`: both touch one resource, and `first` was declared
    /// earlier. Operations on disjoint resources are left unordered.
    pub open spec fn must_precede(self, first: int, second: int) -> bool {
        &&& 0 <= first < second < self.operations.len()
        &&& exists|handle: Handle| #[trigger]
            self.touches(first, handle) && self.touches(second, handle)
    }

    /// The resource that export `slot` marks.
    pub open spec fn exported_resource(self, slot: int) -> Resource {
        self.resources[self.exports[slot].resource.index as int]
    }
}

/// Whether `handle` is among `handles`.
fn contains_handle(handles: &Vec<Handle>, handle: Handle) -> (found: bool)
    ensures
        found == handles@.contains(handle),
{
    let mut k: usize = 0;
    while k < handles.len()
        invariant
            k <= handles@.len(),
            forall|j: int| 0 <= j < k ==> handles@[j] != handle,
        decreases handles@.len() - k,
    {
        if handles[k] == handle {
            return true;
        }
        k += 1;
    }
    false
}

/// The graph of one frame, while it is being declared.
pub struct FrameGraph {
    resources: Vec<Resource>,
    operations: Vec<Operation>,
    exports: Vec<Export>,
}

impl View for FrameGraph {
    type V = FrameGraphView;

    closed spec fn view(&self) -> FrameGraphView {
        FrameGraphView {
            resources: self.resources@,
            operations: self.operations@.map_values(|op: Operation| op@),
            exports: self.exports@,
        }
    }
}

impl FrameGraph {
    /// Starts the graph of a frame.
    pub fn new() -> (graph: FrameGraph)
        ensures
            graph@ == FrameGraphView::empty(),
            graph@.wf(),
    {
        let graph = FrameGraph {
            resources: Vec::new(),
            operations: Vec::new(),
            exports: Vec::new(),
        };
        assert(graph@.operations =~= Seq::empty());
        graph
    }

    /// Number of resources in the table.
    pub fn resource_count(&self) -> (n: usize)
        ensures
            n == self@.resources.len(),
    {
        self.resources.len()
    }

    /// Number of operations declared so far.
    pub fn operation_count(&self) -> (n: usize)
        ensures
            n == self@.operations.len(),
    {
        proof {
        }
        self.operations.len()
    }

    /// Number of exports so far.
    pub fn export_count(&self) -> (n: usize)
        ensures
            n == self@.exports.len(),
    {
        self.exports.len()
    }

    /// Whether `handle` names a resource of this graph, of the kind it claims.
    pub fn holds(&self, handle: Handle) -> (held: bool)
        ensures
            held == self@.holds(handle),
    {
        handle.index < self.resources.len() && self.resources[handle.index].kind() == handle.kind
    }

    /// The table entry that `handle` names.
    pub fn resource(&self, handle: Handle) -> (resource: Resource)
        requires
            self@.holds(handle),
        ensures
            resource == self@.resources[handle.index as int],
    {
        self.resources[handle.index]
    }

    /// The operation that was declared as number `i`.
    pub fn operation(&self, i: usize) -> (op: &Operation)
        requires
            i < self@.operations.len(),
        ensures
            op@ == self@.operations[i as int],
    {
        &self.operations[i]
    }

    /// The export that was made as number `slot`.
    pub fn export(&self, handle: ExportedHandle) -> (export: Export)
        requires
            handle.slot < self@.exports.len(),
        ensures
            export == self@.exports[handle.slot as int],
    {
        self.exports[handle.slot]
    }

    /// Whether an operation of kind `pass` was declared.
    pub fn declares(&self, pass: PassKind) -> (found: bool)
        ensures
            found == self@.declares(pass),
    {
        let mut i: usize = 0;
        while i < self.operations.len()
            invariant
                i <= self.operations@.len(),
                self@.operations.len() == self.operations@.len(),
                forall|k: int| 0 <= k < i ==> (#[trigger] self@.operations[k]).pass != pass,
            decreases self.operations@.len() - i,
        {
            if self.operations[i].pass == pass {
                assert(self@.operations[i as int].pass == pass);
                return true;
            }
            i += 1;
        }
        false
    }

    /// Whether operation `i` reads or writes the resource that `handle` names.
    pub fn touches(&self, i: usize, handle: Handle) -> (touched: bool)
        requires
            i < self@.operations.len(),
        ensures
            touched == self@.touches(i as int, handle),
    {
        let op = &self.operations[i];
        contains_handle(&op.reads, handle) || contains_handle(&op.writes, handle)
    }

    /// Whether the execution layer must keep operation `first` before
    /// operation `second`.
    pub fn must_precede(&self, first: usize, second: usize) -> (ordered: bool)
        ensures
            ordered == self@.must_precede(first as int, second as int),
    {
        if !(first < second && second < self.operations.len()) {
            return false;
        }
        let op = &self.operations[first];
        let mut k: usize = 0;
        while k < op.reads.len()
            invariant
                k <= op.reads@.len(),
                first < second < self@.operations.len(),
                op@ == self@.operations[first as int],
                forall|j: int| 0 <= j < k ==> !self@.touches(second as int, #[trigger] op.reads@[j]),
            decreases op.reads@.len() - k,
        {
            if self.touches(second, op.reads[k]) {
                assert(self@.touches(first as int, op.reads@[k as int]));
                return true;
            }
            k += 1;
        }
        let mut k: usize = 0;
        while k < op.writes.len()
            invariant
                k <= op.writes@.len(),
                first < second < self@.operations.len(),
                op@ == self@.operations[first as int],
                forall|j: int| 0 <= j < k ==> !self@.touches(second as int, #[trigger] op.writes@[j]),
            decreases op.writes@.len() - k,
        {
            if self.touches(second, op.writes[k]) {
                assert(self@.touches(first as int, op.writes@[k as int]));
                return true;
            }
            k += 1;
        }
        false
    }

    fn push_resource(&mut self, resource: Resource) -> (handle: Handle)
        requires
            old(self)@.wf(),
        ensures
            final(self)@ == old(self)@.with_resource(resource),
            final(self)@.wf(),
            handle == old(self)@.next_handle(resource.kind()),
            final(self)@.holds(handle),
    {
        let handle = Handle { index: self.resources.len(), kind: resource.kind() };
        self.resources.push(resource);
        proof {
            assert(self.resources@.len() == self.resources.len());
            lemma_with_resource_keeps_wf(old(self)@, resource);
        }
        handle
    }

    /// Admits an image that outlives the graph, in the state `access` that the
    /// caller knows it to be in. The graph takes the caller's word for it.
    pub fn import_image(&mut self, image: ImageId, access: AccessType) -> (handle: Handle)
        requires
            old(self)@.wf(),
        ensures
            final(self)@ == old(self)@.with_resource(Resource::ImportedImage { image, access }),
            final(self)@.wf(),
            handle == old(self)@.next_handle(ResourceKind::Image),
            final(self)@.holds(handle),
    {
        self.push_resource(Resource::ImportedImage { image, access })
    }

    /// Admits a buffer that outlives the graph, in the state `access` that
    /// the caller knows it to be in.
    pub fn import_buffer(&mut self, buffer: BufferId, access: AccessType) -> (handle: Handle)
        requires
            old(self)@.wf(),
        ensures
            final(self)@ == old(self)@.with_resource(Resource::ImportedBuffer { buffer, access }),
            final(self)@.wf(),
            handle == old(self)@.next_handle(ResourceKind::Buffer),
            final(self)@.holds(handle),
    {
        self.push_resource(Resource::ImportedBuffer { buffer, access })
    }

    /// Declares an image that lives for this graph only.
    pub fn create_image(&mut self, desc: ImageDesc) -> (handle: Handle)
        requires
            old(self)@.wf(),
        ensures
            final(self)@ == old(self)@.with_resource(Resource::TransientImage { desc }),
            final(self)@.wf(),
            handle == old(self)@.next_handle(ResourceKind::Image),
            final(self)@.holds(handle),
    {
        self.push_resource(Resource::TransientImage { desc })
    }

    /// Declares a buffer that lives for this graph only.
    pub fn create_buffer(&mut self) -> (handle: Handle)
        requires
            old(self)@.wf(),
        ensures
            final(self)@ == old(self)@.with_resource(Resource::TransientBuffer),
            final(self)@.wf(),
            handle == old(self)@.next_handle(ResourceKind::Buffer),
            final(self)@.holds(handle),
    {
        self.push_resource(Resource::TransientBuffer)
    }

    /// Declares an operation that reads `reads` and writes `writes`. It comes
    /// after every operation declared before it that touches one of them.
    pub fn declare_operation(&mut self, pass: PassKind, reads: Vec<Handle>, writes: Vec<Handle>)
        requires
            old(self)@.wf(),
            old(self)@.holds_all(reads@),
            old(self)@.holds_all(writes@),
        ensures
            final(self)@ == old(self)@.with_operation(pass, reads@, writes@),
            final(self)@.wf(),
    {
        let ghost reads_seq = reads@;
        let ghost writes_seq = writes@;
        self.operations.push(Operation { pass, reads, writes });
        proof {
            assert(self@.operations =~= old(self)@.operations.push(
                OperationView { pass, reads: reads_seq, writes: writes_seq },
            ));
            lemma_with_operation_keeps_wf(old(self)@, pass, reads_seq, writes_seq);
        }
    }

    /// Marks the image that `handle` names as observable after the graph,
    /// for the use `usage`.
    pub fn export_image(&mut self, handle: Handle, usage: ImageUsage) -> (exported: ExportedHandle)
        requires
            old(self)@.wf(),
            old(self)@.holds_image(handle),
        ensures
            final(self)@ == old(self)@.with_export(handle, usage),
            final(self)@.wf(),
            exported == old(self)@.next_export(),
    {
        let exported = ExportedHandle { slot: self.exports.len() };
        self.exports.push(Export { resource: handle, usage });
        proof {
            assert(self.exports@.len() == self.exports.len());
            lemma_with_export_keeps_wf(old(self)@, handle, usage);
        }
        exported
    }
}

/// Declaration order is the only order there is. An operation comes before
/// another only if it was declared earlier, never the other way round as
/// well; of two operations that touch one resource the earlier declared comes
/// first; and two operations that share no resource are left unordered.
pub proof fn lemma_declaration_order(graph: FrameGraphView, i: int, j: int)
    ensures
        graph.must_precede(i, j) ==> i < j && !graph.must_precede(j, i),
        !graph.must_precede(i, i),
        forall|handle: Handle|
            0 <= i < j < graph.operations.len() && #[trigger] graph.touches(i, handle)
                && graph.touches(j, handle) ==> graph.must_precede(i, j),
        (forall|handle: Handle| !(#[trigger] graph.touches(i, handle) && graph.touches(j, handle)))
            ==> !graph.must_precede(i, j) && !graph.must_precede(j, i),
{
}

/// A new resource leaves the graph well formed and every handle in place.
pub proof fn lemma_with_resource_keeps_wf(graph: FrameGraphView, resource: Resource)
    requires
        graph.wf(),
        graph.resources.len() < usize::MAX,
    ensures
        graph.with_resource(resource).wf(),
        graph.with_resource(resource).holds(graph.next_handle(resource.kind())),
        forall|handle: Handle|
            graph.holds(handle) ==> #[trigger] graph.with_resource(resource).holds(handle),
{
}

/// A new operation over handles of the graph leaves it well formed.
pub proof fn lemma_with_operation_keeps_wf(
    graph: FrameGraphView,
    pass: PassKind,
    reads: Seq<Handle>,
    writes: Seq<Handle>,
)
    requires
        graph.wf(),
        graph.holds_all(reads),
        graph.holds_all(writes),
    ensures
        graph.with_operation(pass, reads, writes).wf(),
{
}

/// A new export of an image of the graph leaves it well formed.
pub proof fn lemma_with_export_keeps_wf(graph: FrameGraphView, resource: Handle, usage: ImageUsage)
    requires
        graph.wf(),
        graph.holds_image(resource),
        graph.exports.len() < usize::MAX,
    ensures
        graph.with_export(resource, usage).wf(),
{
}

} // verus!
