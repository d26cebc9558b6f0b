//! What the host is told of each resource it makes for the kernels: the
//! output image, the slots of the binding layout, and the buffers. The values
//! are fixed here, so that the host takes them from the library and holds
//! none of its own.

use vstd::prelude::*;

verus! {

/// Slot of the output image in the binding layout.
pub const IMAGE_BINDING: u32 = 0;

/// Index at which the binding set is bound for a dispatch.
pub const BIND_GROUP_INDEX: u32 = 0;

/// Number of work-groups along the third side of the grid.
pub const WORKGROUP_LAYERS: u32 = 1;

/// Width, height and depth of an image.
#[derive(Clone, Copy, Debug, PartialEq, Eq, Structural)]
pub struct Extent3d {
    pub width: u32,
    pub height: u32,
    pub depth_or_array_layers: u32,
}

/// How many sides an image has.
#[derive(Clone, Copy, Debug, PartialEq, Eq, Structural)]
pub enum TextureDimension {
    D1,
    D2,
    D3,
}

/// How a pixel is stored.
#[derive(Clone, Copy, Debug, PartialEq, Eq, Structural)]
pub enum TextureFormat {
    /// Red, green, blue and alpha, a byte each, read as a fraction of 255.
    Rgba8Unorm,
}

/// One pixel in `Rgba8Unorm`.
#[derive(Clone, Copy, Debug, PartialEq, Eq, Structural)]
pub struct Pixel {
    pub red: u8,
    pub green: u8,
    pub blue: u8,
    pub alpha: u8,
}

/// What an image may be used for.
#[derive(Clone, Copy, Debug, PartialEq, Eq, Structural)]
pub struct TextureUsages {
    pub copy_src: bool,
    pub copy_dst: bool,
    pub texture_binding: bool,
    pub storage_binding: bool,
    pub render_attachment: bool,
}

/// All that the image store needs to make an image.
#[derive(Clone, Copy, Debug, PartialEq, Eq, Structural)]
pub struct ImageDescriptor {
    pub size: Extent3d,
    pub dimension: TextureDimension,
    /// The pixel that the image is filled with when it is made.
    pub fill: Pixel,
    pub format: TextureFormat,
    pub usage: TextureUsages,
}

/// The description of an output image of the given size: one layer, two
/// sides, filled with opaque black, in `Rgba8Unorm`; it can be copied to,
/// written by the kernels and sampled for display, and nothing else.
pub open spec fn output_image(width: u32, height: u32) -> ImageDescriptor {
    ImageDescriptor {
        size: Extent3d { width, height, depth_or_array_layers: 1 },
        dimension: TextureDimension::D2,
        fill: Pixel { red: 0, green: 0, blue: 0, alpha: 255 },
        format: TextureFormat::Rgba8Unorm,
        usage: TextureUsages {
            copy_src: false,
            copy_dst: true,
            texture_binding: true,
            storage_binding: true,
            render_attachment: false,
        },
    }
}

/// The description of an output image of the given size.
pub fn output_image_descriptor(width: u32, height: u32) -> (descriptor: ImageDescriptor)
    ensures
        descriptor == output_image(width, height),
{
    ImageDescriptor {
        size: Extent3d { width, height, depth_or_array_layers: 1 },
        dimension: TextureDimension::D2,
        fill: Pixel { red: 0, green: 0, blue: 0, alpha: 255 },
        format: TextureFormat::Rgba8Unorm,
        usage: TextureUsages {
            copy_src: false,
            copy_dst: true,
            texture_binding: true,
            storage_binding: true,
            render_attachment: false,
        },
    }
}

/// The shader stages that see a slot.
#[derive(Clone, Copy, Debug, PartialEq, Eq, Structural)]
pub struct ShaderStages {
    pub vertex: bool,
    pub fragment: bool,
    pub compute: bool,
}

/// What a kernel may do with a storage image.
#[derive(Clone, Copy, Debug, PartialEq, Eq, Structural)]
pub enum StorageTextureAccess {
    WriteOnly,
    ReadOnly,
    ReadWrite,
}

/// The shape under which a kernel sees an image.
#[derive(Clone, Copy, Debug, PartialEq, Eq, Structural)]
pub enum TextureViewDimension {
    D1,
    D2,
    D2Array,
    Cube,
    CubeArray,
    D3,
}

/// The kind of a buffer slot.
#[derive(Clone, Copy, Debug, PartialEq, Eq, Structural)]
pub enum BufferBindingType {
    Uniform,
    Storage { read_only: bool },
}

/// What kind of resource a slot of the layout takes.
#[derive(Clone, Copy, Debug, PartialEq, Eq, Structural)]
pub enum BindingType {
    StorageTexture {
        access: StorageTextureAccess,
        format: TextureFormat,
        view_dimension: TextureViewDimension,
    },
    Buffer {
        ty: BufferBindingType,
        has_dynamic_offset: bool,
        /// The least size of a buffer bound here, in bytes; `None` for no
        /// such bound.
        min_binding_size: Option<u64>,
    },
}

/// One slot of the layout.
#[derive(Clone, Copy, Debug, PartialEq, Eq, Structural)]
pub struct BindGroupLayoutEntry {
    pub binding: u32,
    pub visibility: ShaderStages,
    pub ty: BindingType,
    /// The length of the array bound here; `None` for a single resource.
    pub count: Option<u32>,
}

/// The stages that see the kernels' slots: the compute stage alone.
pub open spec fn compute_only() -> ShaderStages {
    ShaderStages { vertex: false, fragment: false, compute: true }
}

/// The slot of the output image: slot 0, seen by the compute stage, a single
/// two-sided `Rgba8Unorm` image that the kernels read and write.
pub open spec fn image_entry() -> BindGroupLayoutEntry {
    BindGroupLayoutEntry {
        binding: IMAGE_BINDING,
        visibility: compute_only(),
        ty: BindingType::StorageTexture {
            access: StorageTextureAccess::ReadWrite,
            format: TextureFormat::Rgba8Unorm,
            view_dimension: TextureViewDimension::D2,
        },
        count: None,
    }
}

/// The slot of a data buffer: seen by the compute stage, a single storage
/// buffer that the kernels only read, bound whole, of any size.
pub open spec fn buffer_entry(binding: u32) -> BindGroupLayoutEntry {
    BindGroupLayoutEntry {
        binding,
        visibility: compute_only(),
        ty: BindingType::Buffer {
            ty: BufferBindingType::Storage { read_only: true },
            has_dynamic_offset: false,
            min_binding_size: None,
        },
        count: None,
    }
}

/// The slot of the output image.
pub fn image_layout_entry() -> (entry: BindGroupLayoutEntry)
    ensures
        entry == image_entry(),
{
    BindGroupLayoutEntry {
        binding: IMAGE_BINDING,
        visibility: ShaderStages { vertex: false, fragment: false, compute: true },
        ty: BindingType::StorageTexture {
            access: StorageTextureAccess::ReadWrite,
            format: TextureFormat::Rgba8Unorm,
            view_dimension: TextureViewDimension::D2,
        },
        count: None,
    }
}

/// The slot of the data buffer bound at `binding`.
pub fn buffer_layout_entry(binding: u32) -> (entry: BindGroupLayoutEntry)
    ensures
        entry == buffer_entry(binding),
{
    BindGroupLayoutEntry {
        binding,
        visibility: ShaderStages { vertex: false, fragment: false, compute: true },
        ty: BindingType::Buffer {
            ty: BufferBindingType::Storage { read_only: true },
            has_dynamic_offset: false,
            min_binding_size: None,
        },
        count: None,
    }
}

/// A range of push constants with the stages that see it.
#[derive(Clone, Copy, Debug, PartialEq, Eq, Structural)]
pub struct PushConstantRange {
    pub stages: ShaderStages,
    pub start: u32,
    pub end: u32,
}

/// What a buffer may be used for.
#[derive(Clone, Copy, Debug, PartialEq, Eq, Structural)]
pub struct BufferUsages {
    pub map_read: bool,
    pub map_write: bool,
    pub copy_src: bool,
    pub copy_dst: bool,
    pub index: bool,
    pub vertex: bool,
    pub uniform: bool,
    pub storage: bool,
    pub indirect: bool,
    pub query_resolve: bool,
}

/// The use of the buffers that are made from the registry each frame:
/// storage, and nothing else.
pub open spec fn storage_only() -> BufferUsages {
    BufferUsages {
        map_read: false,
        map_write: false,
        copy_src: false,
        copy_dst: false,
        index: false,
        vertex: false,
        uniform: false,
        storage: true,
        indirect: false,
        query_resolve: false,
    }
}

/// The use of the buffers that are made from the registry each frame.
pub fn data_buffer_usage() -> (usage: BufferUsages)
    ensures
        usage == storage_only(),
{
    BufferUsages {
        map_read: false,
        map_write: false,
        copy_src: false,
        copy_dst: false,
        index: false,
        vertex: false,
        uniform: false,
        storage: true,
        indirect: false,
        query_resolve: false,
    }
}

} // verus!
