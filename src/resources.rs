//! Plain-value descriptions of the device objects that commands refer to.
//!
//! Every resource carries an identity. The recorder compares resources by
//! identity only, never by contents.
use vstd::prelude::*;

verus! {

/// The device limits that the recorder checks commands against.
#[derive(Debug, Copy, Clone, PartialEq, Eq)]
pub struct Device {
    pub id: u64,
    /// Largest number of work groups of a dispatch, per dimension.
    pub max_compute_work_group_count: [u32; 3],
}

/// A framebuffer together with the render pass it was created for.
#[derive(Debug, Copy, Clone, PartialEq, Eq, Structural)]
pub struct Framebuffer {
    pub id: u64,
    /// Number of subpasses of the render pass; a usable framebuffer has at least one.
    pub num_subpasses: u32,
}

/// How a buffer may be used.
#[derive(Debug, Copy, Clone, PartialEq, Eq, Structural)]
pub struct BufferUsage {
    pub transfer_source: bool,
    pub transfer_destination: bool,
    pub vertex_buffer: bool,
    pub index_buffer: bool,
    pub indirect_buffer: bool,
}

/// A range of a buffer, in bytes.
#[derive(Debug, Copy, Clone, PartialEq, Eq, Structural)]
pub struct Buffer {
    pub id: u64,
    /// Offset of the range within the underlying buffer.
    pub offset: u64,
    /// Length of the range.
    pub size: u64,
    pub usage: BufferUsage,
}

/// An image with its dimensions and capabilities.
#[derive(Debug, Copy, Clone, PartialEq, Eq, Structural)]
pub struct Image {
    pub id: u64,
    pub width: u32,
    pub height: u32,
    pub depth: u32,
    pub array_layers: u32,
    pub mipmap_levels: u32,
    /// Whether the format has a color aspect.
    pub has_color: bool,
    /// Whether the image may be the destination of transfer operations.
    pub transfer_destination: bool,
}

/// A value that an attachment or image is cleared to. Floating-point
/// components are given as their IEEE-754 bit patterns.
#[derive(Debug, Copy, Clone, PartialEq, Eq)]
pub enum ClearValue {
    Unused,
    Float([u32; 4]),
    Int([i32; 4]),
    Uint([u32; 4]),
    Depth(u32),
    Stencil(u32),
    DepthStencil(u32, u32),
}

impl ClearValue {
    /// Whether the value clears a color aspect.
    pub open spec fn is_color(self) -> bool {
        match self {
            ClearValue::Float(_) | ClearValue::Int(_) | ClearValue::Uint(_) => true,
            _ => false,
        }
    }
}

/// The type of the indices of an index buffer.
#[derive(Debug, Copy, Clone, PartialEq, Eq, Structural)]
pub enum IndexType {
    U16,
    U32,
}

impl IndexType {
    pub open spec fn size_spec(self) -> u64 {
        match self {
            IndexType::U16 => 2,
            IndexType::U32 => 4,
        }
    }

    /// Size of one index, in bytes.
    pub fn size(&self) -> (r: u64)
        ensures
            r == self.size_spec(),
    {
        match self {
            IndexType::U16 => 2,
            IndexType::U32 => 4,
        }
    }
}

/// A viewport; each field is the IEEE-754 bit pattern of a 32-bit float.
#[derive(Debug, Copy, Clone, PartialEq, Eq, Structural)]
pub struct Viewport {
    pub origin_x: u32,
    pub origin_y: u32,
    pub width: u32,
    pub height: u32,
    pub depth_min: u32,
    pub depth_max: u32,
}

/// A scissor rectangle.
#[derive(Debug, Copy, Clone, PartialEq, Eq, Structural)]
pub struct Scissor {
    pub x: i32,
    pub y: i32,
    pub width: u32,
    pub height: u32,
}

/// Pipeline parameters that are set per recording rather than baked into the
/// pipeline. A field left as `None` is not changed.
#[derive(Debug, Clone)]
pub struct DynamicState {
    /// Bit pattern of the line width.
    pub line_width: Option<u32>,
    pub viewports: Option<Vec<Viewport>>,
    pub scissors: Option<Vec<Scissor>>,
}

/// The mathematical value of a `DynamicState`.
pub struct DynamicStateView {
    pub line_width: Option<u32>,
    pub viewports: Option<Seq<Viewport>>,
    pub scissors: Option<Seq<Scissor>>,
}

/// The value of an optional vector.
pub open spec fn opt_vec_view<T>(v: Option<Vec<T>>) -> Option<Seq<T>> {
    match v {
        Some(x) => Some(x@),
        None => None,
    }
}

impl View for DynamicState {
    type V = DynamicStateView;

    open spec fn view(&self) -> DynamicStateView {
        DynamicStateView {
            line_width: self.line_width,
            viewports: opt_vec_view(self.viewports),
            scissors: opt_vec_view(self.scissors),
        }
    }
}

impl DynamicState {
    /// A dynamic state that changes nothing.
    pub fn none() -> (r: DynamicState)
        ensures
            r@ == (DynamicStateView { line_width: None, viewports: None, scissors: None }),
    {
        DynamicState { line_width: None, viewports: None, scissors: None }
    }
}

/// A range of push-constant bytes that a pipeline layout declares.
#[derive(Debug, Copy, Clone, PartialEq, Eq, Structural)]
pub struct PushConstantRange {
    pub offset: u32,
    pub size: u32,
    /// Shader stages that see the range, as a bit mask.
    pub stages: u32,
}

/// The interface of a pipeline: its push-constant ranges and the layout of
/// each descriptor set it reads.
#[derive(Debug, Clone)]
pub struct PipelineLayout {
    pub push_constant_ranges: Vec<PushConstantRange>,
    /// Identity of the layout expected for each set number.
    pub set_layouts: Vec<u64>,
}

/// A bound group of resources, created with a given layout.
#[derive(Debug, Copy, Clone, PartialEq, Eq, Structural)]
pub struct DescriptorSet {
    pub id: u64,
    pub layout: u64,
}

/// A compute pipeline.
#[derive(Debug, Clone)]
pub struct ComputePipeline {
    pub id: u64,
    pub layout: PipelineLayout,
}

/// One vertex-buffer binding of a graphics pipeline.
#[derive(Debug, Copy, Clone, PartialEq, Eq, Structural)]
pub struct VertexBinding {
    /// Bytes between consecutive elements.
    pub stride: u64,
    /// Whether the binding advances per instance rather than per vertex.
    pub per_instance: bool,
}

/// A graphics pipeline.
#[derive(Debug, Clone)]
pub struct GraphicsPipeline {
    pub id: u64,
    pub layout: PipelineLayout,
    pub dynamic_line_width: bool,
    pub dynamic_viewports: bool,
    pub dynamic_scissors: bool,
    /// Number of viewports, and of scissors, that the pipeline uses.
    pub num_viewports: u32,
    pub vertex_bindings: Vec<VertexBinding>,
}

} // verus!
