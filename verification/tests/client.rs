use sdf_render::access::AccessType;
use sdf_render::client::{
    advance_frame_idx, SdfRenderClient, BACKGROUND_ALPHA, BACKGROUND_BLUE, BACKGROUND_GREEN,
    BACKGROUND_RED, SDF_DIM,
};
use sdf_render::graph::{
    Export, ExportedHandle, FrameGraph, Handle, PassKind, Resource, ResourceKind,
};
use sdf_render::input::{gen_shader_mouse_flags, FrameState, WindowConfig};
use sdf_render::resource::{
    BufferDesc, BufferId, BufferUsage, Format, ImageDesc, ImageId, ImageType, ImageUsage,
    RenderPassAttachmentDesc, RenderPassId,
};
use sdf_render::retirement::RetirementReport;
use sdf_render::temporal::ProtocolError;

fn client() -> SdfRenderClient {
    SdfRenderClient::new(ImageId(1), BufferId(2), RenderPassId(3))
}

fn frame(width: u32, height: u32) -> FrameState {
    FrameState { window_cfg: WindowConfig { width, height }, button_mask: 0, modifier_down: false }
}

fn image(index: usize) -> Handle {
    Handle { index, kind: ResourceKind::Image }
}

fn buffer(index: usize) -> Handle {
    Handle { index, kind: ResourceKind::Buffer }
}

/// Declares a frame in a graph of its own and retires it with the given
/// final state of the field.
fn run_frame(client: &mut SdfRenderClient, field_state: AccessType) -> FrameGraphSummary {
    let mut rg = FrameGraph::new();
    let output = client.prepare_render_graph(&mut rg, &frame(800, 600)).unwrap();
    let summary = FrameGraphSummary {
        output,
        imported: rg.resource(image(0)),
        seeded: rg.declares(PassKind::SeedSdf),
        edited: rg.declares(PassKind::EditSdf),
    };
    let report =
        RetirementReport::new(rg, vec![field_state, AccessType::ColorAttachmentWrite]).unwrap();
    assert!(client.accepts(&report));
    client.retire_render_graph(&report);
    summary
}

struct FrameGraphSummary {
    output: ExportedHandle,
    imported: Resource,
    seeded: bool,
    edited: bool,
}

#[test]
fn plan_asks_for_the_field() {
    let plan = SdfRenderClient::resource_plan();
    assert_eq!(SDF_DIM, 256);
    assert_eq!(
        plan.sdf_image,
        ImageDesc {
            image_type: ImageType::Tex3d,
            format: Format::R16Sfloat,
            width: 256,
            height: 256,
            depth: 256,
            usage: ImageUsage { bits: 0x8 | 0x4 },
        }
    );
}

#[test]
fn plan_asks_for_the_index_buffer() {
    let plan = SdfRenderClient::resource_plan();
    assert_eq!(
        plan.cube_index_buffer,
        BufferDesc { size: 36 * 4, usage: BufferUsage { bits: 0x40 } }
    );
    assert_eq!(plan.cube_index_data.len(), 144);
}

#[test]
fn plan_fills_the_index_buffer_with_the_cube() {
    let plan = SdfRenderClient::resource_plan();
    let mut expected: Vec<u8> = Vec::new();
    for index in sdf_render::geometry::cube_indices() {
        expected.extend_from_slice(&index.to_ne_bytes());
    }
    assert_eq!(plan.cube_index_data, expected);
    let first_face: Vec<u32> = plan.cube_index_data[..24]
        .chunks(4)
        .map(|b| u32::from_ne_bytes([b[0], b[1], b[2], b[3]]))
        .collect();
    assert_eq!(first_face, vec![0, 4, 2, 2, 4, 6]);
}

#[test]
fn plan_asks_for_the_render_pass() {
    let plan = SdfRenderClient::resource_plan();
    assert_eq!(
        plan.raster_render_pass.color_attachments,
        vec![RenderPassAttachmentDesc { format: Format::R16G16B16A16Sfloat, discard_input: true }]
    );
    assert_eq!(
        plan.raster_render_pass.depth_attachment,
        Some(RenderPassAttachmentDesc { format: Format::D24UnormS8Uint, discard_input: false })
    );
}

#[test]
fn new_client_has_retired_no_frame() {
    let client = client();
    assert_eq!(client.frame_idx(), 0);
    assert_eq!(client.sdf_img().resource(), ImageId(1));
    assert_eq!(client.sdf_img().access_type(), AccessType::Nothing);
    assert_eq!(client.sdf_img().pending_export(), None);
}

#[test]
fn background_is_the_bit_pattern_of_the_colour() {
    assert_eq!(f32::from_bits(BACKGROUND_RED), 0.1f32);
    assert_eq!(f32::from_bits(BACKGROUND_GREEN), 0.2f32);
    assert_eq!(f32::from_bits(BACKGROUND_BLUE), 0.5f32);
    assert_eq!(f32::from_bits(BACKGROUND_ALPHA), 1.0f32);
}

#[test]
fn first_frame_written_out() {
    let mut client = client();
    let mut rg = FrameGraph::new();
    let output = client.prepare_render_graph(&mut rg, &frame(800, 600));
    assert_eq!(output, Ok(ExportedHandle { slot: 1 }));

    assert_eq!(rg.resource_count(), 6);
    assert_eq!(
        rg.resource(image(0)),
        Resource::ImportedImage { image: ImageId(1), access: AccessType::Nothing }
    );
    assert_eq!(
        rg.resource(buffer(1)),
        Resource::ImportedBuffer { buffer: BufferId(2), access: AccessType::TransferWrite }
    );
    assert_eq!(
        rg.resource(image(2)),
        Resource::TransientImage { desc: ImageDesc::new_2d(Format::D24UnormS8Uint, [800, 600]) }
    );
    assert_eq!(rg.resource(buffer(3)), Resource::TransientBuffer);
    assert_eq!(rg.resource(buffer(4)), Resource::TransientBuffer);
    assert_eq!(
        rg.resource(image(5)),
        Resource::TransientImage {
            desc: ImageDesc::new_2d(Format::R16G16B16A16Sfloat, [800, 600])
        }
    );

    assert_eq!(rg.operation_count(), 5);
    let none: Vec<Handle> = Vec::new();
    assert_eq!(rg.operation(0).pass, PassKind::ClearDepth);
    assert_eq!(rg.operation(0).reads, none);
    assert_eq!(rg.operation(0).writes, vec![image(2)]);
    assert_eq!(rg.operation(1).pass, PassKind::SeedSdf);
    assert_eq!(rg.operation(1).reads, none);
    assert_eq!(rg.operation(1).writes, vec![image(0)]);
    assert_eq!(rg.operation(2).pass, PassKind::CalculateSdfBricksMeta);
    assert_eq!(rg.operation(2).reads, vec![image(0)]);
    assert_eq!(rg.operation(2).writes, vec![buffer(3), buffer(4)]);
    assert_eq!(
        rg.operation(3).pass,
        PassKind::ClearColor {
            red: 0.1f32.to_bits(),
            green: 0.2f32.to_bits(),
            blue: 0.5f32.to_bits(),
            alpha: 1.0f32.to_bits(),
        }
    );
    assert_eq!(rg.operation(3).reads, none);
    assert_eq!(rg.operation(3).writes, vec![image(5)]);
    assert_eq!(rg.operation(4).pass, PassKind::RasterSdf { render_pass: RenderPassId(3) });
    assert_eq!(rg.operation(4).reads, vec![image(0), buffer(4), buffer(3), buffer(1)]);
    assert_eq!(rg.operation(4).writes, vec![image(2), image(5)]);

    assert_eq!(rg.export_count(), 2);
    assert_eq!(
        rg.export(ExportedHandle { slot: 0 }),
        Export { resource: image(0), usage: ImageUsage { bits: 0 } }
    );
    assert_eq!(
        rg.export(ExportedHandle { slot: 1 }),
        Export { resource: image(5), usage: ImageUsage { bits: 4 } }
    );
    assert_eq!(client.sdf_img().pending_export(), Some(ExportedHandle { slot: 0 }));
}

#[test]
fn frame_follows_the_size_of_the_surface() {
    let mut client = client();
    let mut rg = FrameGraph::new();
    client.prepare_render_graph(&mut rg, &frame(1920, 1080)).unwrap();
    match rg.resource(image(2)) {
        Resource::TransientImage { desc } => assert_eq!((desc.width, desc.height), (1920, 1080)),
        other => panic!("depth image is {:?}", other),
    }
    match rg.resource(image(5)) {
        Resource::TransientImage { desc } => assert_eq!((desc.width, desc.height), (1920, 1080)),
        other => panic!("colour image is {:?}", other),
    }
}

#[test]
fn frame_is_appended_to_what_the_graph_holds() {
    let mut client = client();
    let mut rg = FrameGraph::new();
    let earlier = rg.create_image(ImageDesc::new_2d(Format::R16Sfloat, [1, 1]));
    rg.declare_operation(PassKind::ClearDepth, vec![], vec![earlier]);
    rg.export_image(earlier, ImageUsage::sampled());
    let output = client.prepare_render_graph(&mut rg, &frame(8, 8));
    assert_eq!(output, Ok(ExportedHandle { slot: 2 }));
    assert_eq!(rg.resource_count(), 7);
    assert_eq!(rg.operation_count(), 6);
    assert_eq!(rg.operation(2).writes, vec![image(1)]);
    assert_eq!(client.sdf_img().pending_export(), Some(ExportedHandle { slot: 1 }));
}

#[test]
fn frame_order_follows_shared_resources() {
    let mut client = client();
    let mut rg = FrameGraph::new();
    client.prepare_render_graph(&mut rg, &frame(800, 600)).unwrap();
    assert!(rg.must_precede(1, 2));
    assert!(rg.must_precede(2, 4));
    assert!(rg.must_precede(0, 4));
    assert!(rg.must_precede(3, 4));
    assert!(rg.must_precede(1, 4));
    assert!(!rg.must_precede(0, 1));
    assert!(!rg.must_precede(0, 2));
    assert!(!rg.must_precede(2, 3));
}

#[test]
fn field_is_seeded_on_the_first_frame_only() {
    let mut client = client();
    let first = run_frame(&mut client, AccessType::ComputeShaderWrite);
    assert!(first.seeded);
    assert!(!first.edited);
    for _ in 0..4 {
        let later = run_frame(&mut client, AccessType::ComputeShaderWrite);
        assert!(!later.seeded);
        assert!(later.edited);
    }
}

#[test]
fn state_is_carried_from_each_report_to_the_next_frame() {
    let mut client = client();
    let first = run_frame(&mut client, AccessType::ComputeShaderWrite);
    assert_eq!(
        first.imported,
        Resource::ImportedImage { image: ImageId(1), access: AccessType::Nothing }
    );
    assert_eq!(client.sdf_img().access_type(), AccessType::ComputeShaderWrite);

    let second = run_frame(&mut client, AccessType::AnyShaderReadSampledImageOrUniformTexelBuffer);
    assert_eq!(
        second.imported,
        Resource::ImportedImage { image: ImageId(1), access: AccessType::ComputeShaderWrite }
    );

    let third = run_frame(&mut client, AccessType::General);
    assert_eq!(
        third.imported,
        Resource::ImportedImage {
            image: ImageId(1),
            access: AccessType::AnyShaderReadSampledImageOrUniformTexelBuffer,
        }
    );
    assert_eq!(client.sdf_img().access_type(), AccessType::General);
    assert_eq!(third.output, ExportedHandle { slot: 1 });
}

#[test]
fn second_frame_before_retirement_is_refused() {
    let mut client = client();
    let mut rg = FrameGraph::new();
    client.prepare_render_graph(&mut rg, &frame(800, 600)).unwrap();

    let mut other = FrameGraph::new();
    assert_eq!(
        client.prepare_render_graph(&mut other, &frame(800, 600)),
        Err(ProtocolError::RetirementPending)
    );
    assert_eq!(other.resource_count(), 0);
    assert_eq!(other.operation_count(), 0);
    assert_eq!(other.export_count(), 0);
    assert_eq!(
        client.prepare_render_graph(&mut rg, &frame(800, 600)),
        Err(ProtocolError::RetirementPending)
    );
    assert_eq!(rg.export_count(), 2);
    assert_eq!(client.sdf_img().pending_export(), Some(ExportedHandle { slot: 0 }));
    assert_eq!(client.frame_idx(), 0);

    let report = RetirementReport::new(
        rg,
        vec![AccessType::ComputeShaderWrite, AccessType::ColorAttachmentWrite],
    )
    .unwrap();
    client.retire_render_graph(&report);
    assert!(client.prepare_render_graph(&mut other, &frame(800, 600)).is_ok());
}

#[test]
fn report_of_another_graph_is_not_accepted() {
    let mut client = client();
    let mut rg = FrameGraph::new();
    client.prepare_render_graph(&mut rg, &frame(800, 600)).unwrap();

    let empty = RetirementReport::new(FrameGraph::new(), vec![]).unwrap();
    assert!(!client.accepts(&empty));

    let mut foreign = FrameGraph::new();
    let img = foreign.import_image(ImageId(77), AccessType::Nothing);
    foreign.export_image(img, ImageUsage::empty());
    let foreign = RetirementReport::new(foreign, vec![AccessType::General]).unwrap();
    assert!(!client.accepts(&foreign));

    let own = RetirementReport::new(rg, vec![AccessType::General, AccessType::General]).unwrap();
    assert!(client.accepts(&own));
}

#[test]
fn every_retired_frame_is_counted_once() {
    let mut client = client();
    for expected in 0..5u32 {
        assert_eq!(client.frame_idx(), expected);
        let mut rg = FrameGraph::new();
        client.prepare_render_graph(&mut rg, &frame(800, 600)).unwrap();
        assert_eq!(client.frame_idx(), expected);
        let report = RetirementReport::new(
            rg,
            vec![AccessType::ComputeShaderWrite, AccessType::ColorAttachmentWrite],
        )
        .unwrap();
        client.retire_render_graph(&report);
    }
    assert_eq!(client.frame_idx(), 5);
}

#[test]
fn retirement_without_a_frame_still_counts() {
    let mut client = client();
    let report = RetirementReport::new(FrameGraph::new(), vec![]).unwrap();
    assert!(client.accepts(&report));
    client.retire_render_graph(&report);
    assert_eq!(client.frame_idx(), 1);
    assert_eq!(client.sdf_img().access_type(), AccessType::Nothing);
}

#[test]
fn frame_count_starts_again_after_the_largest() {
    assert_eq!(advance_frame_idx(0), 1);
    assert_eq!(advance_frame_idx(41), 42);
    assert_eq!(advance_frame_idx(u32::MAX - 1), u32::MAX);
    assert_eq!(advance_frame_idx(u32::MAX), 0);
}

#[test]
fn pointer_flags_for_a_resting_pointer() {
    let state = FrameState {
        window_cfg: WindowConfig { width: 800, height: 600 },
        button_mask: 0,
        modifier_down: false,
    };
    let flags = gen_shader_mouse_flags(&state);
    assert_eq!((flags.button as f32, flags.modifier as f32), (0.0, 1.0));
}

#[test]
fn pointer_flags_with_the_primary_button() {
    let mut state = frame(800, 600);
    state.button_mask = 1;
    assert_eq!(gen_shader_mouse_flags(&state).button as f32, 1.0);
    state.button_mask = 0b111;
    assert_eq!(gen_shader_mouse_flags(&state).button, 1);
    state.button_mask = 0b110;
    assert_eq!(gen_shader_mouse_flags(&state).button, 0);
    state.button_mask = u32::MAX;
    assert_eq!(gen_shader_mouse_flags(&state).button, 1);
}

#[test]
fn pointer_flags_with_the_modifier() {
    let mut state = frame(800, 600);
    state.modifier_down = true;
    let flags = gen_shader_mouse_flags(&state);
    assert_eq!(flags.modifier as f32, -1.0);
    assert_eq!(flags.button as f32, 0.0);
}

#[test]
fn frame_constants_hold_flags_and_index() {
    let mut client = client();
    let mut state = frame(800, 600);
    state.button_mask = 1;
    let constants = client.prepare_frame_constants(&state);
    assert_eq!(constants.frame_idx, 0);
    assert_eq!((constants.mouse_flags.button, constants.mouse_flags.modifier), (1, 1));
    run_frame(&mut client, AccessType::ComputeShaderWrite);
    state.modifier_down = true;
    let constants = client.prepare_frame_constants(&state);
    assert_eq!(constants.frame_idx, 1);
    assert_eq!((constants.mouse_flags.button, constants.mouse_flags.modifier), (1, -1));
}

#[test]
fn window_dims_are_width_then_height() {
    assert_eq!(WindowConfig { width: 800, height: 600 }.dims(), [800, 600]);
}
