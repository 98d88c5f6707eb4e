//! The operations that the distance field renderer declares, one function
//! each. Every function appends to the graph it is given and says exactly
//! what it appended.

use vstd::prelude::*;
use crate::graph::{FrameGraph, FrameGraphView, Handle, PassKind, Resource, ResourceKind};
use crate::resource::RenderPassId;

verus! {

/// The buffers that describe which bricks of the distance field are occupied.
#[derive(Clone, Copy, Debug, PartialEq, Eq, Structural)]
pub struct SdfRasterBricks {
    /// Count of occupied bricks, laid out as the arguments of an indirect draw.
    pub brick_meta_buffer: Handle,
    /// One instance record for each occupied brick.
    pub brick_inst_buffer: Handle,
}

/// What the brick rasteriser reads.
#[derive(Clone, Copy, Debug, PartialEq, Eq, Structural)]
pub struct RasterSdfData {
    pub sdf_img: Handle,
    pub brick_inst_buffer: Handle,
    pub brick_meta_buffer: Handle,
    pub cube_index_buffer: Handle,
}

/// The kind of the operation that updates the distance field: seeding where
/// `seed` holds, an edit otherwise.
pub open spec fn sdf_update_pass(seed: bool) -> PassKind {
    if seed {
        PassKind::SeedSdf
    } else {
        PassKind::EditSdf
    }
}

/// `graph` with a depth clear of `img` declared.
pub open spec fn with_clear_depth(graph: FrameGraphView, img: Handle) -> FrameGraphView {
    graph.with_operation(PassKind::ClearDepth, seq![], seq![img])
}

/// `graph` with an update of the distance field `sdf_img` declared.
pub open spec fn with_edit_sdf(graph: FrameGraphView, sdf_img: Handle, seed: bool) -> FrameGraphView {
    graph.with_operation(sdf_update_pass(seed), seq![], seq![sdf_img])
}

/// The handles of the two brick buffers that a brick search declared in
/// `graph` creates.
pub open spec fn brick_buffers(graph: FrameGraphView) -> SdfRasterBricks {
    SdfRasterBricks {
        brick_meta_buffer: graph.next_handle(ResourceKind::Buffer),
        brick_inst_buffer: graph.with_resource(Resource::TransientBuffer).next_handle(
            ResourceKind::Buffer,
        ),
    }
}

/// `graph` with a brick search over `sdf_img` declared: two transient
/// buffers, and the operation that reads the field and fills them.
pub open spec fn with_sdf_bricks_meta(graph: FrameGraphView, sdf_img: Handle) -> FrameGraphView {
    let bricks = brick_buffers(graph);
    graph.with_resource(Resource::TransientBuffer).with_resource(
        Resource::TransientBuffer,
    ).with_operation(
        PassKind::CalculateSdfBricksMeta,
        seq![sdf_img],
        seq![bricks.brick_meta_buffer, bricks.brick_inst_buffer],
    )
}

/// `graph` with a clear of `img` to the colour `rgba` declared.
pub open spec fn with_clear_color(graph: FrameGraphView, img: Handle, rgba: Seq<u32>) -> FrameGraphView {
    graph.with_operation(
        PassKind::ClearColor { red: rgba[0], green: rgba[1], blue: rgba[2], alpha: rgba[3] },
        seq![],
        seq![img],
    )
}

/// `graph` with the brick rasteriser declared.
pub open spec fn with_raster_sdf(
    graph: FrameGraphView,
    render_pass: RenderPassId,
    depth_img: Handle,
    color_img: Handle,
    data: RasterSdfData,
) -> FrameGraphView {
    graph.with_operation(
        PassKind::RasterSdf { render_pass },
        seq![
            data.sdf_img,
            data.brick_inst_buffer,
            data.brick_meta_buffer,
            data.cube_index_buffer,
        ],
        seq![depth_img, color_img],
    )
}

/// Declares that the depth image `img` is reset.
pub fn clear_depth(rg: &mut FrameGraph, img: Handle)
    requires
        old(rg)@.wf(),
        old(rg)@.holds_image(img),
    ensures
        final(rg)@ == with_clear_depth(old(rg)@, img),
        final(rg)@.wf(),
{
    let reads: Vec<Handle> = Vec::new();
    let mut writes: Vec<Handle> = Vec::new();
    writes.push(img);
    rg.declare_operation(PassKind::ClearDepth, reads, writes);
}

/// Declares this frame's update of the distance field `sdf_img`: the field
/// is seeded where `seed` holds and edited otherwise.
pub fn edit_sdf(rg: &mut FrameGraph, sdf_img: Handle, seed: bool)
    requires
        old(rg)@.wf(),
        old(rg)@.holds_image(sdf_img),
    ensures
        final(rg)@ == with_edit_sdf(old(rg)@, sdf_img, seed),
        final(rg)@.wf(),
{
    let pass = if seed {
        PassKind::SeedSdf
    } else {
        PassKind::EditSdf
    };
    let reads: Vec<Handle> = Vec::new();
    let mut writes: Vec<Handle> = Vec::new();
    writes.push(sdf_img);
    rg.declare_operation(pass, reads, writes);
}

/// Declares the search for the occupied bricks of `sdf_img` and returns the
/// buffers that it fills.
pub fn calculate_sdf_bricks_meta(rg: &mut FrameGraph, sdf_img: Handle) -> (bricks: SdfRasterBricks)
    requires
        old(rg)@.wf(),
        old(rg)@.holds_image(sdf_img),
    ensures
        final(rg)@ == with_sdf_bricks_meta(old(rg)@, sdf_img),
        final(rg)@.wf(),
        bricks == brick_buffers(old(rg)@),
        final(rg)@.holds(bricks.brick_meta_buffer),
        final(rg)@.holds(bricks.brick_inst_buffer),
{
    let brick_meta_buffer = rg.create_buffer();
    let brick_inst_buffer = rg.create_buffer();
    let mut reads: Vec<Handle> = Vec::new();
    reads.push(sdf_img);
    let mut writes: Vec<Handle> = Vec::new();
    writes.push(brick_meta_buffer);
    writes.push(brick_inst_buffer);
    assert(writes@ =~= seq![brick_meta_buffer, brick_inst_buffer]);
    rg.declare_operation(PassKind::CalculateSdfBricksMeta, reads, writes);
    SdfRasterBricks { brick_meta_buffer, brick_inst_buffer }
}

/// Declares that the colour image `img` is filled with `rgba`, the bit
/// patterns of four single-precision numbers.
pub fn clear_color(rg: &mut FrameGraph, img: Handle, rgba: [u32; 4])
    requires
        old(rg)@.wf(),
        old(rg)@.holds_image(img),
    ensures
        final(rg)@ == with_clear_color(old(rg)@, img, rgba@),
        final(rg)@.wf(),
{
    let pass = PassKind::ClearColor {
        red: rgba[0],
        green: rgba[1],
        blue: rgba[2],
        alpha: rgba[3],
    };
    let reads: Vec<Handle> = Vec::new();
    let mut writes: Vec<Handle> = Vec::new();
    writes.push(img);
    rg.declare_operation(pass, reads, writes);
}

/// Declares the draw of the occupied bricks into `depth_img` and `color_img`.
pub fn raster_sdf(
    rg: &mut FrameGraph,
    render_pass: RenderPassId,
    depth_img: Handle,
    color_img: Handle,
    data: RasterSdfData,
)
    requires
        old(rg)@.wf(),
        old(rg)@.holds_image(depth_img),
        old(rg)@.holds_image(color_img),
        old(rg)@.holds_image(data.sdf_img),
        old(rg)@.holds(data.brick_inst_buffer),
        old(rg)@.holds(data.brick_meta_buffer),
        old(rg)@.holds(data.cube_index_buffer),
    ensures
        final(rg)@ == with_raster_sdf(old(rg)@, render_pass, depth_img, color_img, data),
        final(rg)@.wf(),
{
    let mut reads: Vec<Handle> = Vec::new();
    reads.push(data.sdf_img);
    reads.push(data.brick_inst_buffer);
    reads.push(data.brick_meta_buffer);
    reads.push(data.cube_index_buffer);
    let mut writes: Vec<Handle> = Vec::new();
    writes.push(depth_img);
    writes.push(color_img);
    assert(reads@ =~= seq![
        data.sdf_img,
        data.brick_inst_buffer,
        data.brick_meta_buffer,
        data.cube_index_buffer,
    ]);
    assert(writes@ =~= seq![depth_img, color_img]);
    rg.declare_operation(PassKind::RasterSdf { render_pass }, reads, writes);
}

} // verus!
