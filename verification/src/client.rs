//! The client that renders a signed distance field.
//!
//! The client owns the field, a volume image that lives on from frame to
//! frame, and the index buffer of the cube that stands for one brick of it.
//! Each frame it declares a graph that updates the field, finds its occupied
//! bricks and draws them, and exports the field so that the state in which
//! the graph leaves it is known when the graph is retired. It counts the
//! frames it has retired; the field is seeded on the first of them.

use vstd::prelude::*;
use crate::access::AccessType;
use crate::bytes::{encodes_words, words_as_bytes};
use crate::geometry::{cube_index_seq, cube_indices, index_values, lemma_index_values_injective};
use crate::graph::{ExportedHandle, FrameGraph, FrameGraphView, Handle, Resource, ResourceKind};
use crate::input::{gen_shader_mouse_flags, shader_mouse_flags, FrameState, ShaderMouseFlags, WindowConfig};
use crate::passes::{
    brick_buffers, calculate_sdf_bricks_meta, clear_color, clear_depth, edit_sdf, raster_sdf,
    with_clear_color, with_clear_depth, with_edit_sdf, with_raster_sdf, with_sdf_bricks_meta,
    RasterSdfData,
};
use crate::resource::{
    BufferDesc, BufferId, BufferUsage, Format, ImageDesc, ImageId, ImageType, ImageUsage,
    RenderPassAttachmentDesc, RenderPassId, BUFFER_USAGE_INDEX_BUFFER, IMAGE_USAGE_SAMPLED,
    IMAGE_USAGE_STORAGE,
};
use crate::retirement::{report_redeems, RetiredImage, RetirementReport};
use crate::temporal::{ProtocolError, TemporalImage, TemporalImageView};

verus! {

/// Edge length of the distance field, in texels.
pub const SDF_DIM: u32 = 256;

/// Red channel of the background colour, the bit pattern of 0.1.
pub const BACKGROUND_RED: u32 = 0x3DCC_CCCD;

/// Green channel of the background colour, the bit pattern of 0.2.
pub const BACKGROUND_GREEN: u32 = 0x3E4C_CCCD;

/// Blue channel of the background colour, the bit pattern of 0.5.
pub const BACKGROUND_BLUE: u32 = 0x3F00_0000;

/// Alpha channel of the background colour, the bit pattern of 1.0.
pub const BACKGROUND_ALPHA: u32 = 0x3F80_0000;

/// The attachments that a render pass draws to.
#[derive(Debug)]
pub struct RenderPassDesc {
    pub color_attachments: Vec<RenderPassAttachmentDesc>,
    pub depth_attachment: Option<RenderPassAttachmentDesc>,
}

/// What has to be allocated before a client can be made.
#[derive(Debug)]
pub struct ResourcePlan {
    /// The distance field.
    pub sdf_image: ImageDesc,
    /// The index buffer of the cube.
    pub cube_index_buffer: BufferDesc,
    /// What the index buffer is filled with.
    pub cube_index_data: Vec<u8>,
    /// The render pass that the bricks are drawn with.
    pub raster_render_pass: RenderPassDesc,
}

/// The distance field: a cubic volume of half-precision distances that
/// shaders both store to and sample.
pub open spec fn sdf_image_desc() -> ImageDesc {
    ImageDesc {
        image_type: ImageType::Tex3d,
        format: Format::R16Sfloat,
        width: SDF_DIM,
        height: SDF_DIM,
        depth: SDF_DIM,
        usage: ImageUsage { bits: IMAGE_USAGE_STORAGE | IMAGE_USAGE_SAMPLED },
    }
}

/// The depth image of a frame drawn to a surface of size `window`.
pub open spec fn depth_image_desc(window: WindowConfig) -> ImageDesc {
    ImageDesc {
        image_type: ImageType::Tex2d,
        format: Format::D24UnormS8Uint,
        width: window.width,
        height: window.height,
        depth: 1,
        usage: ImageUsage { bits: 0 },
    }
}

/// The colour image of a frame drawn to a surface of size `window`.
pub open spec fn color_image_desc(window: WindowConfig) -> ImageDesc {
    ImageDesc {
        image_type: ImageType::Tex2d,
        format: Format::R16G16B16A16Sfloat,
        width: window.width,
        height: window.height,
        depth: 1,
        usage: ImageUsage { bits: 0 },
    }
}

/// The background colour, channel by channel.
pub open spec fn background_color() -> Seq<u32> {
    seq![BACKGROUND_RED, BACKGROUND_GREEN, BACKGROUND_BLUE, BACKGROUND_ALPHA]
}

/// The index that follows `frame_idx`. After the largest index the count
/// starts again at zero.
pub open spec fn next_frame_idx(frame_idx: u32) -> u32 {
    if frame_idx == u32::MAX {
        0
    } else {
        (frame_idx + 1) as u32
    }
}

/// Counts one more frame.
pub fn advance_frame_idx(frame_idx: u32) -> (next: u32)
    ensures
        next == next_frame_idx(frame_idx),
{
    frame_idx.wrapping_add(1)
}

/// The constants of a frame that are whole numbers.
#[derive(Clone, Copy, Debug, PartialEq, Eq, Structural)]
pub struct FrameConstants {
    pub mouse_flags: ShaderMouseFlags,
    pub frame_idx: u32,
}

/// A client as a mathematical value.
pub struct SdfRenderClientView {
    pub raster_simple_render_pass: RenderPassId,
    pub sdf_img: TemporalImageView,
    pub cube_index_buffer: BufferId,
    pub frame_idx: u32,
}

impl SdfRenderClientView {
    /// The client as it is made: the field untouched, no frame retired.
    pub open spec fn fresh(
        sdf_image: ImageId,
        cube_index_buffer: BufferId,
        raster_simple_render_pass: RenderPassId,
    ) -> SdfRenderClientView {
        SdfRenderClientView {
            raster_simple_render_pass,
            sdf_img: TemporalImageView::fresh(sdf_image),
            cube_index_buffer,
            frame_idx: 0,
        }
    }

    /// No frame of the client awaits retirement.
    pub open spec fn idle(self) -> bool {
        self.sdf_img.idle()
    }

    /// The handle under which a frame declared in `graph` knows the field.
    pub open spec fn sdf_handle(graph: FrameGraphView) -> Handle {
        graph.next_handle(ResourceKind::Image)
    }

    /// The export of the field in a frame declared in `graph`.
    pub open spec fn sdf_export(graph: FrameGraphView) -> ExportedHandle {
        graph.next_export()
    }

    /// The export of the colour image in a frame declared in `graph`.
    pub open spec fn output_export(graph: FrameGraphView) -> ExportedHandle {
        ExportedHandle { slot: (graph.exports.len() + 1) as usize }
    }

    /// `graph` with the resources of a frame entered: the field in its last
    /// known state, the cube's indices as the upload left them, a depth image
    /// of the surface's size.
    pub open spec fn with_frame_inputs(self, graph: FrameGraphView, window: WindowConfig) -> FrameGraphView {
        graph.with_resource(self.sdf_img.import_entry()).with_resource(
            Resource::ImportedBuffer {
                buffer: self.cube_index_buffer,
                access: AccessType::TransferWrite,
            },
        ).with_resource(Resource::TransientImage { desc: depth_image_desc(window) })
    }

    /// `graph` with the frame of this client declared in it, for a surface of
    /// size `window`.
    pub open spec fn declared_frame(self, graph: FrameGraphView, window: WindowConfig) -> FrameGraphView {
        let sdf_img = Self::sdf_handle(graph);
        let cube_index_buffer = Handle { index: (graph.resources.len() + 1) as usize, kind: ResourceKind::Buffer };
        let depth_img = Handle { index: (graph.resources.len() + 2) as usize, kind: ResourceKind::Image };
        let tex = Handle { index: (graph.resources.len() + 5) as usize, kind: ResourceKind::Image };
        let entered = self.with_frame_inputs(graph, window);
        let updated = with_edit_sdf(with_clear_depth(entered, depth_img), sdf_img, self.frame_idx == 0);
        let bricks = brick_buffers(updated);
        let searched = with_sdf_bricks_meta(updated, sdf_img);
        let cleared = with_clear_color(
            searched.with_resource(Resource::TransientImage { desc: color_image_desc(window) }),
            tex,
            background_color(),
        );
        let drawn = with_raster_sdf(
            cleared,
            self.raster_simple_render_pass,
            depth_img,
            tex,
            RasterSdfData {
                sdf_img,
                brick_inst_buffer: bricks.brick_inst_buffer,
                brick_meta_buffer: bricks.brick_meta_buffer,
                cube_index_buffer,
            },
        );
        drawn.with_export(sdf_img, ImageUsage { bits: 0 }).with_export(
            tex,
            ImageUsage { bits: IMAGE_USAGE_SAMPLED },
        )
    }

    /// The client after it has declared its frame in `graph`: the export of
    /// the field is outstanding.
    pub open spec fn prepared(self, graph: FrameGraphView) -> SdfRenderClientView {
        SdfRenderClientView { sdf_img: self.sdf_img.exported(Self::sdf_export(graph)), ..self }
    }

    /// Whether `report` can retire the client's frame: it redeems the
    /// outstanding export of the field, if there is one.
    pub open spec fn accepts(self, report: Seq<RetiredImage>) -> bool {
        self.sdf_img.pending_export matches Some(token) ==> report_redeems(
            report,
            token,
            self.sdf_img.resource,
        )
    }

    /// The client after `report` has retired its frame: the field has the
    /// state that the report holds, and one more frame is counted.
    pub open spec fn retired(self, report: Seq<RetiredImage>) -> SdfRenderClientView {
        SdfRenderClientView {
            sdf_img: self.sdf_img.retired(report),
            frame_idx: next_frame_idx(self.frame_idx),
            ..self
        }
    }
}

/// The client.
pub struct SdfRenderClient {
    raster_simple_render_pass: RenderPassId,
    sdf_img: TemporalImage,
    cube_index_buffer: BufferId,
    frame_idx: u32,
}

impl View for SdfRenderClient {
    type V = SdfRenderClientView;

    closed spec fn view(&self) -> SdfRenderClientView {
        SdfRenderClientView {
            raster_simple_render_pass: self.raster_simple_render_pass,
            sdf_img: self.sdf_img@,
            cube_index_buffer: self.cube_index_buffer,
            frame_idx: self.frame_idx,
        }
    }
}

impl SdfRenderClient {
    /// Says what has to be allocated for a client: the distance field, the
    /// index buffer of the cube together with its contents, and the render
    /// pass with one colour attachment, whose previous contents are not
    /// needed, and a depth attachment.
    pub fn resource_plan() -> (plan: ResourcePlan)
        ensures
            plan.sdf_image == sdf_image_desc(),
            plan.cube_index_buffer == (BufferDesc {
                size: 144,
                usage: BufferUsage { bits: BUFFER_USAGE_INDEX_BUFFER },
            }),
            plan.cube_index_data@.len() == plan.cube_index_buffer.size,
            forall|indices: Seq<u32>|
                index_values(indices) == cube_index_seq() ==> encodes_words(
                    indices,
                    plan.cube_index_data@,
                ),
            plan.raster_render_pass.color_attachments@ == seq![
                RenderPassAttachmentDesc {
                    format: Format::R16G16B16A16Sfloat,
                    discard_input: true,
                },
            ],
            plan.raster_render_pass.depth_attachment == Some(
                RenderPassAttachmentDesc { format: Format::D24UnormS8Uint, discard_input: false },
            ),
    {
        let sdf_image = ImageDesc::new_3d(Format::R16Sfloat, [SDF_DIM, SDF_DIM, SDF_DIM]).usage(
            ImageUsage::storage().union(ImageUsage::sampled()),
        );
        let indices = cube_indices();
        let cube_index_buffer = BufferDesc {
            size: indices.len() * 4,
            usage: BufferUsage::index_buffer(),
        };
        let cube_index_data = words_as_bytes(&indices);
        let mut color_attachments: Vec<RenderPassAttachmentDesc> = Vec::new();
        color_attachments.push(
            RenderPassAttachmentDesc::new(Format::R16G16B16A16Sfloat).garbage_input(),
        );
        let depth_attachment = Some(RenderPassAttachmentDesc::new(Format::D24UnormS8Uint));
        proof {
            assert forall|other: Seq<u32>| index_values(other) == cube_index_seq() implies other
                == indices@ by {
                lemma_index_values_injective(other, indices@);
            }
        }
        ResourcePlan {
            sdf_image,
            cube_index_buffer,
            cube_index_data,
            raster_render_pass: RenderPassDesc { color_attachments, depth_attachment },
        }
    }

    /// Makes the client of the resources that were allocated to its plan.
    pub fn new(
        sdf_image: ImageId,
        cube_index_buffer: BufferId,
        raster_simple_render_pass: RenderPassId,
    ) -> (client: SdfRenderClient)
        ensures
            client@ == SdfRenderClientView::fresh(
                sdf_image,
                cube_index_buffer,
                raster_simple_render_pass,
            ),
    {
        SdfRenderClient {
            raster_simple_render_pass,
            sdf_img: TemporalImage::new(sdf_image),
            cube_index_buffer,
            frame_idx: 0u32,
        }
    }

    /// Number of frames retired so far, counted modulo two to the thirty-second.
    pub fn frame_idx(&self) -> (frame_idx: u32)
        ensures
            frame_idx == self@.frame_idx,
    {
        self.frame_idx
    }

    /// The distance field.
    pub fn sdf_img(&self) -> (sdf_img: &TemporalImage)
        ensures
            sdf_img@ == self@.sdf_img,
    {
        &self.sdf_img
    }

    /// Declares this frame in `rg` and returns the export of the colour image
    /// that the frame is drawn to. The field is seeded if no frame has been
    /// retired yet and edited otherwise. While an earlier frame awaits
    /// retirement nothing is declared.
    pub fn prepare_render_graph(&mut self, rg: &mut FrameGraph, frame_state: &FrameState) -> (result:
        Result<ExportedHandle, ProtocolError>)
        requires
            old(rg)@.wf(),
        ensures
            final(rg)@.wf(),
            result is Ok <==> old(self)@.idle(),
            result matches Ok(output) ==> {
                &&& final(rg)@ == old(self)@.declared_frame(old(rg)@, frame_state.window_cfg)
                &&& final(self)@ == old(self)@.prepared(old(rg)@)
                &&& output == SdfRenderClientView::output_export(old(rg)@)
            },
            result matches Err(error) ==> {
                &&& error == ProtocolError::RetirementPending
                &&& final(rg)@ == old(rg)@
                &&& final(self)@ == old(self)@
            },
    {
        let sdf_img = match self.sdf_img.import_into(rg) {
            Ok(handle) => handle,
            Err(error) => {
                return Err(error);
            },
        };
        let cube_index_buffer = rg.import_buffer(self.cube_index_buffer, AccessType::TransferWrite);
        let dims = frame_state.window_cfg.dims();
        let depth_img = rg.create_image(ImageDesc::new_2d(Format::D24UnormS8Uint, dims));
        clear_depth(rg, depth_img);
        edit_sdf(rg, sdf_img, self.frame_idx == 0);
        let bricks = calculate_sdf_bricks_meta(rg, sdf_img);
        let tex = rg.create_image(ImageDesc::new_2d(Format::R16G16B16A16Sfloat, dims));
        let rgba: [u32; 4] = [BACKGROUND_RED, BACKGROUND_GREEN, BACKGROUND_BLUE, BACKGROUND_ALPHA];
        clear_color(rg, tex, rgba);
        raster_sdf(
            rg,
            self.raster_simple_render_pass,
            depth_img,
            tex,
            RasterSdfData {
                sdf_img,
                brick_inst_buffer: bricks.brick_inst_buffer,
                brick_meta_buffer: bricks.brick_meta_buffer,
                cube_index_buffer,
            },
        );
        match self.sdf_img.export_from(rg, sdf_img, ImageUsage::empty()) {
            Ok(_) => {},
            Err(error) => {
                return Err(error);
            },
        }
        Ok(rg.export_image(tex, ImageUsage::sampled()))
    }

    /// The whole-number constants of this frame: the flags that go with the
    /// pointer and the index of the frame.
    pub fn prepare_frame_constants(&self, frame_state: &FrameState) -> (constants: FrameConstants)
        ensures
            constants == (FrameConstants {
                mouse_flags: shader_mouse_flags(*frame_state),
                frame_idx: self@.frame_idx,
            }),
    {
        FrameConstants {
            mouse_flags: gen_shader_mouse_flags(frame_state),
            frame_idx: self.frame_idx,
        }
    }

    /// Whether `retired_rg` can retire the client's frame.
    pub fn accepts(&self, retired_rg: &RetirementReport) -> (accepted: bool)
        ensures
            accepted == self@.accepts(retired_rg@),
    {
        match self.sdf_img.pending_export() {
            Some(token) => retired_rg.redeems(token, self.sdf_img.resource()),
            None => true,
        }
    }

    /// Retires the client's frame: the field takes the state that
    /// `retired_rg` holds for its export and can be imported again, and the
    /// frame is counted.
    pub fn retire_render_graph(&mut self, retired_rg: &RetirementReport)
        requires
            old(self)@.accepts(retired_rg@),
        ensures
            final(self)@ == old(self)@.retired(retired_rg@),
            final(self)@.idle(),
    {
        match self.sdf_img.pending_export() {
            Some(token) => {
                self.sdf_img.apply_retirement(retired_rg, token);
            },
            None => {},
        }
        self.frame_idx = advance_frame_idx(self.frame_idx);
    }
}

} // verus!
