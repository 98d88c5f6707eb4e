//! How a GPU resource was last used.
//!
//! The execution layer needs the previous use of a resource to order the next
//! one after it. The states are those that Vulkan synchronisation tells
//! apart: the pipeline stage together with the kind of read or write.

use vstd::prelude::*;

verus! {

/// The pipeline stage and mode in which a resource was last read or written.
#[derive(Clone, Copy, Debug, PartialEq, Eq, Structural)]
pub enum AccessType {
    Nothing,
    CommandBufferReadNVX,
    IndirectBuffer,
    IndexBuffer,
    VertexBuffer,
    VertexShaderReadUniformBuffer,
    VertexShaderReadSampledImageOrUniformTexelBuffer,
    VertexShaderReadOther,
    TessellationControlShaderReadUniformBuffer,
    TessellationControlShaderReadSampledImageOrUniformTexelBuffer,
    TessellationControlShaderReadOther,
    TessellationEvaluationShaderReadUniformBuffer,
    TessellationEvaluationShaderReadSampledImageOrUniformTexelBuffer,
    TessellationEvaluationShaderReadOther,
    GeometryShaderReadUniformBuffer,
    GeometryShaderReadSampledImageOrUniformTexelBuffer,
    GeometryShaderReadOther,
    FragmentShaderReadUniformBuffer,
    FragmentShaderReadSampledImageOrUniformTexelBuffer,
    FragmentShaderReadColorInputAttachment,
    FragmentShaderReadDepthStencilInputAttachment,
    FragmentShaderReadOther,
    ColorAttachmentRead,
    DepthStencilAttachmentRead,
    ComputeShaderReadUniformBuffer,
    ComputeShaderReadSampledImageOrUniformTexelBuffer,
    ComputeShaderReadOther,
    AnyShaderReadUniformBuffer,
    AnyShaderReadUniformBufferOrVertexBuffer,
    AnyShaderReadSampledImageOrUniformTexelBuffer,
    AnyShaderReadOther,
    TransferRead,
    HostRead,
    Present,
    CommandBufferWriteNVX,
    VertexShaderWrite,
    TessellationControlShaderWrite,
    TessellationEvaluationShaderWrite,
    GeometryShaderWrite,
    FragmentShaderWrite,
    ColorAttachmentWrite,
    DepthStencilAttachmentWrite,
    DepthAttachmentWriteStencilReadOnly,
    StencilAttachmentWriteDepthReadOnly,
    ComputeShaderWrite,
    AnyShaderWrite,
    TransferWrite,
    HostWrite,
    ColorAttachmentReadWrite,
    General,
}

} // verus!
