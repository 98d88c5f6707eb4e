//! What holds of the client over whole frames.
//!
//! A frame is declared in a graph, the graph is handed to the execution
//! layer, and the report of the retired graph is applied. The laws below
//! follow the field's state and the frame count through one such round and
//! through any number of them.

use vstd::prelude::*;
use crate::access::AccessType;
use crate::client::{
    background_color, color_image_desc, depth_image_desc, next_frame_idx, SdfRenderClientView,
};
use crate::graph::{
    Export, FrameGraphView, Handle, OperationView, PassKind, Resource, ResourceKind,
};
use crate::input::WindowConfig;
use crate::resource::{ImageUsage, IMAGE_USAGE_SAMPLED};
use crate::retirement::{retired_exports, RetiredImage};

verus! {

/// The report of the graph that `client` declared its frame in, starting
/// from `graph`, where the execution layer left the exports in the states
/// `final_access`.
pub open spec fn frame_report(
    client: SdfRenderClientView,
    graph: FrameGraphView,
    window: WindowConfig,
    final_access: Seq<AccessType>,
) -> Seq<RetiredImage> {
    retired_exports(client.declared_frame(graph, window), final_access)
}

/// The client after one whole frame: declared in a graph of its own, and
/// retired with the states `final_access`.
pub open spec fn after_frame(
    client: SdfRenderClientView,
    window: WindowConfig,
    final_access: Seq<AccessType>,
) -> SdfRenderClientView {
    client.prepared(FrameGraphView::empty()).retired(
        frame_report(client, FrameGraphView::empty(), window, final_access),
    )
}

/// The client after a run of whole frames, one for each entry of `reports`.
pub open spec fn after_frames(
    client: SdfRenderClientView,
    window: WindowConfig,
    reports: Seq<Seq<AccessType>>,
) -> SdfRenderClientView
    decreases reports.len(),
{
    if reports.len() == 0 {
        client
    } else {
        after_frame(after_frames(client, window, reports.drop_last()), window, reports.last())
    }
}

/// A frame declared in a graph of its own, written out: six resources, five
/// operations, two exports.
pub proof fn lemma_fresh_frame_layout(client: SdfRenderClientView, window: WindowConfig)
    ensures
        ({
            let frame = client.declared_frame(FrameGraphView::empty(), window);
            let sdf_img = Handle { index: 0, kind: ResourceKind::Image };
            let cube_index_buffer = Handle { index: 1, kind: ResourceKind::Buffer };
            let depth_img = Handle { index: 2, kind: ResourceKind::Image };
            let brick_meta_buffer = Handle { index: 3, kind: ResourceKind::Buffer };
            let brick_inst_buffer = Handle { index: 4, kind: ResourceKind::Buffer };
            let tex = Handle { index: 5, kind: ResourceKind::Image };
            &&& frame.wf()
            &&& frame.resources == seq![
                Resource::ImportedImage {
                    image: client.sdf_img.resource,
                    access: client.sdf_img.access_type,
                },
                Resource::ImportedBuffer {
                    buffer: client.cube_index_buffer,
                    access: AccessType::TransferWrite,
                },
                Resource::TransientImage { desc: depth_image_desc(window) },
                Resource::TransientBuffer,
                Resource::TransientBuffer,
                Resource::TransientImage { desc: color_image_desc(window) },
            ]
            &&& frame.operations == seq![
                OperationView { pass: PassKind::ClearDepth, reads: seq![], writes: seq![depth_img] },
                OperationView {
                    pass: if client.frame_idx == 0 {
                        PassKind::SeedSdf
                    } else {
                        PassKind::EditSdf
                    },
                    reads: seq![],
                    writes: seq![sdf_img],
                },
                OperationView {
                    pass: PassKind::CalculateSdfBricksMeta,
                    reads: seq![sdf_img],
                    writes: seq![brick_meta_buffer, brick_inst_buffer],
                },
                OperationView {
                    pass: PassKind::ClearColor {
                        red: background_color()[0],
                        green: background_color()[1],
                        blue: background_color()[2],
                        alpha: background_color()[3],
                    },
                    reads: seq![],
                    writes: seq![tex],
                },
                OperationView {
                    pass: PassKind::RasterSdf { render_pass: client.raster_simple_render_pass },
                    reads: seq![sdf_img, brick_inst_buffer, brick_meta_buffer, cube_index_buffer],
                    writes: seq![depth_img, tex],
                },
            ]
            &&& frame.exports == seq![
                Export { resource: sdf_img, usage: ImageUsage { bits: 0 } },
                Export { resource: tex, usage: ImageUsage { bits: IMAGE_USAGE_SAMPLED } },
            ]
        }),
{
    let frame = client.declared_frame(FrameGraphView::empty(), window);
    assert forall|i: int| 0 <= i < frame.operations.len() implies frame.holds_all(
        (#[trigger] frame.operations[i]).reads,
    ) by {}
    assert forall|i: int| 0 <= i < frame.operations.len() implies frame.holds_all(
        (#[trigger] frame.operations[i]).writes,
    ) by {}
}

/// The field is seeded in the first frame and in no other: the frame that a
/// client declares holds the seeding operation exactly if the client has
/// retired no frame yet, and the edit exactly if it has.
pub proof fn lemma_seed_only_on_first_frame(client: SdfRenderClientView, window: WindowConfig)
    ensures
        client.declared_frame(FrameGraphView::empty(), window).declares(PassKind::SeedSdf) <==> client.frame_idx
            == 0,
        client.declared_frame(FrameGraphView::empty(), window).declares(PassKind::EditSdf) <==> client.frame_idx
            != 0,
{
    lemma_fresh_frame_layout(client, window);
    let frame = client.declared_frame(FrameGraphView::empty(), window);
    assert(frame.operations[1].pass == (if client.frame_idx == 0 {
        PassKind::SeedSdf
    } else {
        PassKind::EditSdf
    }));
}

/// In a frame the execution layer must keep the update of the field before
/// the brick search, the brick search before the draw, and both clears
/// before the draw. The depth clear and the update of the field share no
/// resource and may run in either order.
pub proof fn lemma_frame_order(client: SdfRenderClientView, window: WindowConfig)
    ensures
        ({
            let frame = client.declared_frame(FrameGraphView::empty(), window);
            &&& frame.must_precede(1, 2)
            &&& frame.must_precede(2, 4)
            &&& frame.must_precede(0, 4)
            &&& frame.must_precede(3, 4)
            &&& !frame.must_precede(0, 1)
        }),
{
    lemma_fresh_frame_layout(client, window);
    let frame = client.declared_frame(FrameGraphView::empty(), window);
    let sdf_img = Handle { index: 0, kind: ResourceKind::Image };
    let depth_img = Handle { index: 2, kind: ResourceKind::Image };
    let brick_meta_buffer = Handle { index: 3, kind: ResourceKind::Buffer };
    let tex = Handle { index: 5, kind: ResourceKind::Image };
    assert(frame.operations[1].writes[0] == sdf_img && frame.operations[2].reads[0] == sdf_img);
    assert(frame.touches(1, sdf_img) && frame.touches(2, sdf_img));
    assert(frame.operations[2].writes[0] == brick_meta_buffer && frame.operations[4].reads[2]
        == brick_meta_buffer);
    assert(frame.touches(2, brick_meta_buffer) && frame.touches(4, brick_meta_buffer));
    assert(frame.operations[0].writes[0] == depth_img && frame.operations[4].writes[0]
        == depth_img);
    assert(frame.touches(0, depth_img) && frame.touches(4, depth_img));
    assert(frame.operations[3].writes[0] == tex && frame.operations[4].writes[1] == tex);
    assert(frame.touches(3, tex) && frame.touches(4, tex));
    assert forall|handle: Handle| !(#[trigger] frame.touches(0, handle) && frame.touches(1, handle)) by {
        if frame.touches(0, handle) && frame.touches(1, handle) {
            assert(handle == depth_img && handle == sdf_img);
        }
    }
}

/// While a frame awaits retirement the client declares no other: once a
/// frame is declared the client is no longer idle, whatever graph the frame
/// was declared in, and it is idle again once the frame is retired.
pub proof fn lemma_one_frame_at_a_time(
    client: SdfRenderClientView,
    graph: FrameGraphView,
    report: Seq<RetiredImage>,
)
    requires
        client.idle(),
    ensures
        !client.prepared(graph).idle(),
        client.prepared(graph).retired(report).idle(),
{
}

/// One round of the protocol, in a graph that has room for the frame. The
/// report of the graph that an idle client declared its frame in is one that
/// the client accepts. Once it is applied,
/// the field has exactly the state that the report holds for its export, the
/// client is idle, one more frame is counted, and the next frame imports the
/// field in that state.
pub proof fn lemma_frame_round_trip(
    client: SdfRenderClientView,
    graph: FrameGraphView,
    window: WindowConfig,
    final_access: Seq<AccessType>,
    next_graph: FrameGraphView,
    next_window: WindowConfig,
)
    requires
        client.idle(),
        graph.wf(),
        graph.resources.len() + 6 <= usize::MAX,
        graph.exports.len() + 2 <= usize::MAX,
        final_access.len() == graph.exports.len() + 2,
    ensures
        ({
            let report = frame_report(client, graph, window, final_access);
            let token = SdfRenderClientView::sdf_export(graph);
            let next = client.prepared(graph).retired(report);
            &&& client.prepared(graph).accepts(report)
            &&& report[token.slot as int].access == final_access[graph.exports.len() as int]
            &&& next.idle()
            &&& next.sdf_img.access_type == final_access[graph.exports.len() as int]
            &&& next.sdf_img.resource == client.sdf_img.resource
            &&& next.frame_idx == next_frame_idx(client.frame_idx)
            &&& next.declared_frame(next_graph, next_window).resources[next_graph.resources.len() as int]
                == (Resource::ImportedImage {
                image: client.sdf_img.resource,
                access: final_access[graph.exports.len() as int],
            })
        }),
{
    let frame = client.declared_frame(graph, window);
    let token = SdfRenderClientView::sdf_export(graph);
    assert(frame.exports[token.slot as int].resource == SdfRenderClientView::sdf_handle(graph));
    assert(frame.exported_resource(token.slot as int) == client.sdf_img.import_entry());
}

/// After a run of whole frames the client is idle and the field's state is
/// the one that the report of the last frame holds for the field: not that
/// of an earlier frame, and not the state before any access.
pub proof fn lemma_state_carries_across_frames(
    client: SdfRenderClientView,
    window: WindowConfig,
    reports: Seq<Seq<AccessType>>,
)
    requires
        client.idle(),
        reports.len() > 0,
        forall|k: int| 0 <= k < reports.len() ==> (#[trigger] reports[k]).len() == 2,
    ensures
        after_frames(client, window, reports).idle(),
        after_frames(client, window, reports).sdf_img.access_type == reports.last()[0],
        after_frames(client, window, reports).sdf_img.resource == client.sdf_img.resource,
    decreases reports.len(),
{
    if reports.len() > 1 {
        assert forall|k: int| 0 <= k < reports.drop_last().len() implies (
        #[trigger] reports.drop_last()[k]).len() == 2 by {
            assert(reports.drop_last()[k] == reports[k]);
        }
        lemma_state_carries_across_frames(client, window, reports.drop_last());
    }
    lemma_frame_round_trip(
        after_frames(client, window, reports.drop_last()),
        FrameGraphView::empty(),
        window,
        reports.last(),
        FrameGraphView::empty(),
        window,
    );
}

/// The frame count goes up by one with every retired frame and starts again
/// at zero after its largest value: after `n` whole frames it is the count
/// before, plus `n`, modulo two to the thirty-second.
pub proof fn lemma_frame_count_wraps(
    client: SdfRenderClientView,
    window: WindowConfig,
    reports: Seq<Seq<AccessType>>,
)
    ensures
        after_frames(client, window, reports).frame_idx == (client.frame_idx + reports.len())
            % 0x1_0000_0000,
    decreases reports.len(),
{
    if reports.len() > 0 {
        lemma_frame_count_wraps(client, window, reports.drop_last());
        let before = after_frames(client, window, reports.drop_last());
        let sum = client.frame_idx + reports.len() - 1;
        assert(before.frame_idx == sum % 0x1_0000_0000);
        assert(next_frame_idx(before.frame_idx) == (sum + 1) % 0x1_0000_0000) by {
            if before.frame_idx == u32::MAX {
                assert((sum + 1) % 0x1_0000_0000 == 0) by (nonlinear_arith)
                    requires
                        sum % 0x1_0000_0000 == 0xFFFF_FFFF,
                        sum >= 0,
                ;
            } else {
                assert((sum + 1) % 0x1_0000_0000 == sum % 0x1_0000_0000 + 1) by (nonlinear_arith)
                    requires
                        sum % 0x1_0000_0000 < 0xFFFF_FFFF,
                        sum >= 0,
                ;
            }
        }
    }
}

} // verus!
