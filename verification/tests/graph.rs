use sdf_render::access::AccessType;
use sdf_render::graph::{
    Export, ExportedHandle, FrameGraph, Handle, PassKind, Resource, ResourceKind,
};
use sdf_render::resource::{BufferId, Format, ImageDesc, ImageId, ImageType, ImageUsage};
use sdf_render::retirement::RetirementReport;

fn image(index: usize) -> Handle {
    Handle { index, kind: ResourceKind::Image }
}

fn buffer(index: usize) -> Handle {
    Handle { index, kind: ResourceKind::Buffer }
}

#[test]
fn new_graph_is_empty() {
    let rg = FrameGraph::new();
    assert_eq!(rg.resource_count(), 0);
    assert_eq!(rg.operation_count(), 0);
    assert_eq!(rg.export_count(), 0);
    assert!(!rg.holds(image(0)));
    assert!(!rg.declares(PassKind::ClearDepth));
}

#[test]
fn import_image_keeps_the_given_state() {
    let mut rg = FrameGraph::new();
    let handle = rg.import_image(ImageId(3), AccessType::TransferWrite);
    assert_eq!(handle, image(0));
    assert_eq!(
        rg.resource(handle),
        Resource::ImportedImage { image: ImageId(3), access: AccessType::TransferWrite }
    );
}

#[test]
fn import_buffer_keeps_the_given_state() {
    let mut rg = FrameGraph::new();
    rg.import_image(ImageId(3), AccessType::Nothing);
    let handle = rg.import_buffer(BufferId(9), AccessType::IndexBuffer);
    assert_eq!(handle, buffer(1));
    assert_eq!(
        rg.resource(handle),
        Resource::ImportedBuffer { buffer: BufferId(9), access: AccessType::IndexBuffer }
    );
}

#[test]
fn created_resources_are_transient() {
    let mut rg = FrameGraph::new();
    let desc = ImageDesc::new_2d(Format::D24UnormS8Uint, [640, 480]);
    let img = rg.create_image(desc);
    let buf = rg.create_buffer();
    assert_eq!(img, image(0));
    assert_eq!(buf, buffer(1));
    assert_eq!(rg.resource(img), Resource::TransientImage { desc });
    assert_eq!(rg.resource(buf), Resource::TransientBuffer);
    assert_eq!(rg.resource_count(), 2);
}

#[test]
fn handle_of_the_wrong_kind_is_not_held() {
    let mut rg = FrameGraph::new();
    rg.import_image(ImageId(1), AccessType::Nothing);
    assert!(rg.holds(image(0)));
    assert!(!rg.holds(buffer(0)));
    assert!(!rg.holds(image(1)));
}

#[test]
fn declared_operations_keep_their_order() {
    let mut rg = FrameGraph::new();
    let a = rg.import_image(ImageId(1), AccessType::Nothing);
    let b = rg.create_buffer();
    rg.declare_operation(PassKind::EditSdf, vec![], vec![a]);
    rg.declare_operation(PassKind::CalculateSdfBricksMeta, vec![a], vec![b]);
    assert_eq!(rg.operation_count(), 2);
    assert_eq!(rg.operation(0).pass, PassKind::EditSdf);
    assert_eq!(rg.operation(0).reads, Vec::<Handle>::new());
    assert_eq!(rg.operation(0).writes, vec![a]);
    assert_eq!(rg.operation(1).pass, PassKind::CalculateSdfBricksMeta);
    assert_eq!(rg.operation(1).reads, vec![a]);
    assert_eq!(rg.operation(1).writes, vec![b]);
    assert!(rg.declares(PassKind::EditSdf));
    assert!(rg.declares(PassKind::CalculateSdfBricksMeta));
    assert!(!rg.declares(PassKind::SeedSdf));
}

#[test]
fn operations_sharing_a_resource_are_ordered() {
    let mut rg = FrameGraph::new();
    let a = rg.import_image(ImageId(1), AccessType::Nothing);
    let b = rg.create_buffer();
    let c = rg.create_image(ImageDesc::new_2d(Format::R16G16B16A16Sfloat, [4, 4]));
    rg.declare_operation(PassKind::EditSdf, vec![], vec![a]);
    rg.declare_operation(PassKind::ClearDepth, vec![], vec![c]);
    rg.declare_operation(PassKind::CalculateSdfBricksMeta, vec![a], vec![b]);
    assert!(rg.touches(0, a));
    assert!(!rg.touches(0, c));
    assert!(rg.touches(2, a));
    assert!(rg.touches(2, b));
    assert!(rg.must_precede(0, 2));
    assert!(!rg.must_precede(2, 0));
    assert!(!rg.must_precede(0, 0));
    assert!(!rg.must_precede(0, 1));
    assert!(!rg.must_precede(1, 2));
    assert!(!rg.must_precede(0, 3));
}

#[test]
fn exports_are_numbered_in_order() {
    let mut rg = FrameGraph::new();
    let a = rg.import_image(ImageId(1), AccessType::Nothing);
    let b = rg.create_image(ImageDesc::new_2d(Format::R16G16B16A16Sfloat, [4, 4]));
    let first = rg.export_image(a, ImageUsage::empty());
    let second = rg.export_image(b, ImageUsage::sampled());
    assert_eq!(first, ExportedHandle { slot: 0 });
    assert_eq!(second, ExportedHandle { slot: 1 });
    assert_eq!(rg.export_count(), 2);
    assert_eq!(rg.export(first), Export { resource: a, usage: ImageUsage { bits: 0 } });
    assert_eq!(rg.export(second), Export { resource: b, usage: ImageUsage { bits: 4 } });
}

#[test]
fn report_has_one_entry_for_each_export() {
    let mut rg = FrameGraph::new();
    let a = rg.import_image(ImageId(1), AccessType::Nothing);
    let b = rg.create_image(ImageDesc::new_2d(Format::R16G16B16A16Sfloat, [4, 4]));
    let first = rg.export_image(a, ImageUsage::empty());
    let second = rg.export_image(b, ImageUsage::sampled());
    let report = RetirementReport::new(
        rg,
        vec![AccessType::ComputeShaderWrite, AccessType::ColorAttachmentWrite],
    )
    .unwrap();
    assert_eq!(report.len(), 2);
    assert!(report.contains(first));
    assert!(report.contains(second));
    assert!(!report.contains(ExportedHandle { slot: 2 }));
    assert_eq!(
        report.get_image(first),
        (
            Resource::ImportedImage { image: ImageId(1), access: AccessType::Nothing },
            AccessType::ComputeShaderWrite
        )
    );
    assert_eq!(report.get_image(second).1, AccessType::ColorAttachmentWrite);
    assert!(report.redeems(first, ImageId(1)));
    assert!(!report.redeems(first, ImageId(2)));
    assert!(!report.redeems(second, ImageId(1)));
    assert!(!report.redeems(ExportedHandle { slot: 2 }, ImageId(1)));
}

#[test]
fn report_needs_a_state_for_each_export() {
    let mut rg = FrameGraph::new();
    let a = rg.import_image(ImageId(1), AccessType::Nothing);
    rg.export_image(a, ImageUsage::empty());
    assert!(RetirementReport::new(rg, vec![]).is_none());

    let mut rg = FrameGraph::new();
    let a = rg.import_image(ImageId(1), AccessType::Nothing);
    rg.export_image(a, ImageUsage::empty());
    assert!(RetirementReport::new(rg, vec![AccessType::General, AccessType::General]).is_none());

    assert!(RetirementReport::new(FrameGraph::new(), vec![]).is_some());
}

#[test]
fn written_and_exported_without_a_read_is_reported() {
    let mut rg = FrameGraph::new();
    let a = rg.import_image(ImageId(5), AccessType::Nothing);
    rg.declare_operation(PassKind::SeedSdf, vec![], vec![a]);
    let token = rg.export_image(a, ImageUsage::empty());
    let report = RetirementReport::new(rg, vec![AccessType::ComputeShaderWrite]).unwrap();
    assert_eq!(report.get_image(token).1, AccessType::ComputeShaderWrite);
    assert!(report.redeems(token, ImageId(5)));
}

#[test]
fn image_descriptions() {
    let flat = ImageDesc::new_2d(Format::R16G16B16A16Sfloat, [800, 600]);
    assert_eq!(flat.image_type, ImageType::Tex2d);
    assert_eq!((flat.width, flat.height, flat.depth), (800, 600, 1));
    assert_eq!(flat.usage, ImageUsage { bits: 0 });
    let volume = ImageDesc::new_3d(Format::R16Sfloat, [2, 3, 4]).usage(ImageUsage::storage());
    assert_eq!(volume.image_type, ImageType::Tex3d);
    assert_eq!((volume.width, volume.height, volume.depth), (2, 3, 4));
    assert_eq!(volume.usage, ImageUsage { bits: 8 });
    assert_eq!(ImageUsage::storage().union(ImageUsage::sampled()), ImageUsage { bits: 12 });
}

#[test]
fn imported_resources_enter_in_their_given_state() {
    let img = Resource::ImportedImage { image: ImageId(1), access: AccessType::TransferWrite };
    let buf = Resource::ImportedBuffer { buffer: BufferId(1), access: AccessType::IndexBuffer };
    assert_eq!(img.entry_access(), AccessType::TransferWrite);
    assert_eq!(buf.entry_access(), AccessType::IndexBuffer);
    assert_eq!(img.kind(), ResourceKind::Image);
    assert_eq!(buf.kind(), ResourceKind::Buffer);
}

#[test]
fn transient_resources_enter_without_prior_access() {
    let img = Resource::TransientImage { desc: ImageDesc::new_2d(Format::R16Sfloat, [1, 1]) };
    assert_eq!(img.entry_access(), AccessType::Nothing);
    assert_eq!(Resource::TransientBuffer.entry_access(), AccessType::Nothing);
    assert_eq!(img.kind(), ResourceKind::Image);
    assert_eq!(Resource::TransientBuffer.kind(), ResourceKind::Buffer);
}
