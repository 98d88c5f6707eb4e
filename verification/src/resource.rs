//! Descriptions of the GPU resources that a client asks for, and the names
//! under which it holds those that were allocated for it.
//!
//! Allocation itself happens outside this crate. What is decided here is what
//! to ask for: format, extent and intended use.

use vstd::prelude::*;

verus! {

/// Names an image that was allocated for the client and outlives a frame.
#[derive(Clone, Copy, Debug, PartialEq, Eq, Structural)]
pub struct ImageId(pub u64);

/// Names a buffer that was allocated for the client and outlives a frame.
#[derive(Clone, Copy, Debug, PartialEq, Eq, Structural)]
pub struct BufferId(pub u64);

/// Names a render pass object that was created for the client.
#[derive(Clone, Copy, Debug, PartialEq, Eq, Structural)]
pub struct RenderPassId(pub u64);

/// Texel formats that the client uses.
#[derive(Clone, Copy, Debug, PartialEq, Eq, Structural)]
pub enum Format {
    /// One 16-bit float channel.
    R16Sfloat,
    /// Four 16-bit float channels.
    R16G16B16A16Sfloat,
    /// 24 bits of depth and 8 bits of stencil.
    D24UnormS8Uint,
}

/// Number of dimensions of an image.
#[derive(Clone, Copy, Debug, PartialEq, Eq, Structural)]
pub enum ImageType {
    Tex2d,
    Tex3d,
}

/// Bit of an image usage set: the image is sampled by shaders.
pub const IMAGE_USAGE_SAMPLED: u32 = 0x4;

/// Bit of an image usage set: shaders load from and store to the image.
pub const IMAGE_USAGE_STORAGE: u32 = 0x8;

/// Bit of a buffer usage set: the buffer feeds indices to indexed draws.
pub const BUFFER_USAGE_INDEX_BUFFER: u32 = 0x40;

/// A set of ways in which an image will be used, one bit each, numbered as
/// Vulkan numbers them.
#[derive(Clone, Copy, Debug, PartialEq, Eq, Structural)]
pub struct ImageUsage {
    pub bits: u32,
}

impl ImageUsage {
    /// The set without any use.
    pub fn empty() -> (usage: ImageUsage)
        ensures
            usage.bits == 0,
    {
        ImageUsage { bits: 0 }
    }

    /// The set that holds sampling alone.
    pub fn sampled() -> (usage: ImageUsage)
        ensures
            usage.bits == IMAGE_USAGE_SAMPLED,
    {
        ImageUsage { bits: IMAGE_USAGE_SAMPLED }
    }

    /// The set that holds storage access alone.
    pub fn storage() -> (usage: ImageUsage)
        ensures
            usage.bits == IMAGE_USAGE_STORAGE,
    {
        ImageUsage { bits: IMAGE_USAGE_STORAGE }
    }

    /// The uses of either set.
    pub fn union(self, other: ImageUsage) -> (usage: ImageUsage)
        ensures
            usage.bits == self.bits | other.bits,
    {
        ImageUsage { bits: self.bits | other.bits }
    }
}

/// A set of ways in which a buffer will be used, one bit each, numbered as
/// Vulkan numbers them.
#[derive(Clone, Copy, Debug, PartialEq, Eq, Structural)]
pub struct BufferUsage {
    pub bits: u32,
}

impl BufferUsage {
    /// The set that holds use as an index buffer alone.
    pub fn index_buffer() -> (usage: BufferUsage)
        ensures
            usage.bits == BUFFER_USAGE_INDEX_BUFFER,
    {
        BufferUsage { bits: BUFFER_USAGE_INDEX_BUFFER }
    }
}

/// What to ask for when an image is allocated.
#[derive(Clone, Copy, Debug, PartialEq, Eq, Structural)]
pub struct ImageDesc {
    pub image_type: ImageType,
    pub format: Format,
    pub width: u32,
    pub height: u32,
    pub depth: u32,
    pub usage: ImageUsage,
}

impl ImageDesc {
    /// A flat image of `extent[0]` by `extent[1]` texels, with no use declared
    /// yet.
    pub fn new_2d(format: Format, extent: [u32; 2]) -> (desc: ImageDesc)
        ensures
            desc == (ImageDesc {
                image_type: ImageType::Tex2d,
                format,
                width: extent@[0],
                height: extent@[1],
                depth: 1,
                usage: ImageUsage { bits: 0 },
            }),
    {
        ImageDesc {
            image_type: ImageType::Tex2d,
            format,
            width: extent[0],
            height: extent[1],
            depth: 1,
            usage: ImageUsage::empty(),
        }
    }

    /// A volume of `extent[0]` by `extent[1]` by `extent[2]` texels, with no
    /// use declared yet.
    pub fn new_3d(format: Format, extent: [u32; 3]) -> (desc: ImageDesc)
        ensures
            desc == (ImageDesc {
                image_type: ImageType::Tex3d,
                format,
                width: extent@[0],
                height: extent@[1],
                depth: extent@[2],
                usage: ImageUsage { bits: 0 },
            }),
    {
        ImageDesc {
            image_type: ImageType::Tex3d,
            format,
            width: extent[0],
            height: extent[1],
            depth: extent[2],
            usage: ImageUsage::empty(),
        }
    }

    /// The same image with `usage` as its declared use.
    pub fn usage(self, usage: ImageUsage) -> (desc: ImageDesc)
        ensures
            desc == (ImageDesc { usage, ..self }),
    {
        ImageDesc { usage, ..self }
    }
}

/// What to ask for when a buffer is allocated.
#[derive(Clone, Copy, Debug, PartialEq, Eq, Structural)]
pub struct BufferDesc {
    /// Size in bytes.
    pub size: usize,
    pub usage: BufferUsage,
}

/// One attachment of a render pass.
#[derive(Clone, Copy, Debug, PartialEq, Eq, Structural)]
pub struct RenderPassAttachmentDesc {
    pub format: Format,
    /// Whether what the attachment held before the pass may be thrown away.
    pub discard_input: bool,
}

impl RenderPassAttachmentDesc {
    /// An attachment of the given format whose previous contents are kept.
    pub fn new(format: Format) -> (desc: RenderPassAttachmentDesc)
        ensures
            desc == (RenderPassAttachmentDesc { format, discard_input: false }),
    {
        RenderPassAttachmentDesc { format, discard_input: false }
    }

    /// The same attachment, with its previous contents declared garbage.
    pub fn garbage_input(self) -> (desc: RenderPassAttachmentDesc)
        ensures
            desc == (RenderPassAttachmentDesc { discard_input: true, ..self }),
    {
        RenderPassAttachmentDesc { discard_input: true, ..self }
    }
}

} // verus!
