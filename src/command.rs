//! The raw commands that the recorder emits, in the order a device would run them.
use vstd::prelude::*;
use crate::resources::{ClearValue, IndexType, Scissor, Viewport};

verus! {

/// What a subpass may contain.
#[derive(Debug, Copy, Clone, PartialEq, Eq, Structural)]
pub enum SubpassContents {
    /// Draw commands recorded directly in the primary command buffer.
    Inline,
    /// Only executions of secondary command buffers.
    SecondaryCommandBuffers,
}

/// The contents of a subpass entered with the given `secondary` flag.
pub open spec fn contents_of(secondary: bool) -> SubpassContents {
    if secondary {
        SubpassContents::SecondaryCommandBuffers
    } else {
        SubpassContents::Inline
    }
}

/// One raw command. Resources are referred to by identity.
#[derive(Debug, Clone, PartialEq, Eq)]
#[allow(inconsistent_fields)]
pub enum Command {
    BeginRenderPass { framebuffer: u64, contents: SubpassContents, clear_values: Vec<ClearValue> },
    NextSubpass { contents: SubpassContents },
    EndRenderPass,
    /// Clears a range of an image that is in the transfer-destination layout.
    ClearColorImage {
        image: u64,
        color: ClearValue,
        base_mip_level: u32,
        level_count: u32,
        base_array_layer: u32,
        layer_count: u32,
    },
    CopyBuffer { source: u64, destination: u64, source_offset: u64, destination_offset: u64, size: u64 },
    /// Copies into an image that is in the transfer-destination layout.
    CopyBufferToImage {
        source: u64,
        destination: u64,
        buffer_offset: u64,
        image_mip_level: u32,
        image_base_array_layer: u32,
        image_layer_count: u32,
        image_offset: [u32; 3],
        image_extent: [u32; 3],
    },
    BindPipelineCompute { pipeline: u64 },
    BindPipelineGraphics { pipeline: u64 },
    BindIndexBuffer { buffer: u64, index_type: IndexType },
    PushConstants { pipeline: u64, stages: u32, offset: u32, size: u32, data: Vec<u8> },
    SetLineWidth { line_width: u32 },
    SetViewport { first: u32, viewports: Vec<Viewport> },
    SetScissor { first: u32, scissors: Vec<Scissor> },
    BindDescriptorSets { graphics: bool, pipeline: u64, first_set: u32, sets: Vec<u64> },
    BindVertexBuffers { first_binding: u32, buffers: Vec<u64> },
    Dispatch { dimensions: [u32; 3] },
    Draw { vertex_count: u64, instance_count: u64, first_vertex: u32, first_instance: u32 },
    DrawIndexed {
        index_count: u64,
        instance_count: u32,
        first_index: u32,
        vertex_offset: i32,
        first_instance: u32,
    },
    DrawIndirect { buffer: u64, draw_count: u64, stride: u32 },
    FillBuffer { buffer: u64, data: u32 },
    UpdateBuffer { buffer: u64, data: Vec<u8> },
}

/// The mathematical value of a `Command`: the same command with sequences in
/// place of vectors.
#[allow(inconsistent_fields)]
pub enum CommandView {
    BeginRenderPass { framebuffer: u64, contents: SubpassContents, clear_values: Seq<ClearValue> },
    NextSubpass { contents: SubpassContents },
    EndRenderPass,
    ClearColorImage {
        image: u64,
        color: ClearValue,
        base_mip_level: u32,
        level_count: u32,
        base_array_layer: u32,
        layer_count: u32,
    },
    CopyBuffer { source: u64, destination: u64, source_offset: u64, destination_offset: u64, size: u64 },
    CopyBufferToImage {
        source: u64,
        destination: u64,
        buffer_offset: u64,
        image_mip_level: u32,
        image_base_array_layer: u32,
        image_layer_count: u32,
        image_offset: [u32; 3],
        image_extent: [u32; 3],
    },
    BindPipelineCompute { pipeline: u64 },
    BindPipelineGraphics { pipeline: u64 },
    BindIndexBuffer { buffer: u64, index_type: IndexType },
    PushConstants { pipeline: u64, stages: u32, offset: u32, size: u32, data: Seq<u8> },
    SetLineWidth { line_width: u32 },
    SetViewport { first: u32, viewports: Seq<Viewport> },
    SetScissor { first: u32, scissors: Seq<Scissor> },
    BindDescriptorSets { graphics: bool, pipeline: u64, first_set: u32, sets: Seq<u64> },
    BindVertexBuffers { first_binding: u32, buffers: Seq<u64> },
    Dispatch { dimensions: [u32; 3] },
    Draw { vertex_count: u64, instance_count: u64, first_vertex: u32, first_instance: u32 },
    DrawIndexed {
        index_count: u64,
        instance_count: u32,
        first_index: u32,
        vertex_offset: i32,
        first_instance: u32,
    },
    DrawIndirect { buffer: u64, draw_count: u64, stride: u32 },
    FillBuffer { buffer: u64, data: u32 },
    UpdateBuffer { buffer: u64, data: Seq<u8> },
}

impl View for Command {
    type V = CommandView;

    open spec fn view(&self) -> CommandView {
        match *self {
            Command::BeginRenderPass { framebuffer, contents, clear_values } =>
                CommandView::BeginRenderPass { framebuffer, contents, clear_values: clear_values@ },
            Command::NextSubpass { contents } => CommandView::NextSubpass { contents },
            Command::EndRenderPass => CommandView::EndRenderPass,
            Command::ClearColorImage {
                image,
                color,
                base_mip_level,
                level_count,
                base_array_layer,
                layer_count,
            } => CommandView::ClearColorImage {
                image,
                color,
                base_mip_level,
                level_count,
                base_array_layer,
                layer_count,
            },
            Command::CopyBuffer { source, destination, source_offset, destination_offset, size } =>
                CommandView::CopyBuffer { source, destination, source_offset, destination_offset, size },
            Command::CopyBufferToImage {
                source,
                destination,
                buffer_offset,
                image_mip_level,
                image_base_array_layer,
                image_layer_count,
                image_offset,
                image_extent,
            } => CommandView::CopyBufferToImage {
                source,
                destination,
                buffer_offset,
                image_mip_level,
                image_base_array_layer,
                image_layer_count,
                image_offset,
                image_extent,
            },
            Command::BindPipelineCompute { pipeline } => CommandView::BindPipelineCompute { pipeline },
            Command::BindPipelineGraphics { pipeline } => CommandView::BindPipelineGraphics { pipeline },
            Command::BindIndexBuffer { buffer, index_type } =>
                CommandView::BindIndexBuffer { buffer, index_type },
            Command::PushConstants { pipeline, stages, offset, size, data } =>
                CommandView::PushConstants { pipeline, stages, offset, size, data: data@ },
            Command::SetLineWidth { line_width } => CommandView::SetLineWidth { line_width },
            Command::SetViewport { first, viewports } =>
                CommandView::SetViewport { first, viewports: viewports@ },
            Command::SetScissor { first, scissors } =>
                CommandView::SetScissor { first, scissors: scissors@ },
            Command::BindDescriptorSets { graphics, pipeline, first_set, sets } =>
                CommandView::BindDescriptorSets { graphics, pipeline, first_set, sets: sets@ },
            Command::BindVertexBuffers { first_binding, buffers } =>
                CommandView::BindVertexBuffers { first_binding, buffers: buffers@ },
            Command::Dispatch { dimensions } => CommandView::Dispatch { dimensions },
            Command::Draw { vertex_count, instance_count, first_vertex, first_instance } =>
                CommandView::Draw { vertex_count, instance_count, first_vertex, first_instance },
            Command::DrawIndexed {
                index_count,
                instance_count,
                first_index,
                vertex_offset,
                first_instance,
            } => CommandView::DrawIndexed {
                index_count,
                instance_count,
                first_index,
                vertex_offset,
                first_instance,
            },
            Command::DrawIndirect { buffer, draw_count, stride } =>
                CommandView::DrawIndirect { buffer, draw_count, stride },
            Command::FillBuffer { buffer, data } => CommandView::FillBuffer { buffer, data },
            Command::UpdateBuffer { buffer, data } => CommandView::UpdateBuffer { buffer, data: data@ },
        }
    }
}

/// Number of compute-pipeline binds in a command sequence.
pub open spec fn count_compute_binds(s: Seq<CommandView>) -> nat
    decreases s.len(),
{
    if s.len() == 0 {
        0
    } else {
        count_compute_binds(s.drop_last()) + match s.last() {
            CommandView::BindPipelineCompute { .. } => 1nat,
            _ => 0nat,
        }
    }
}

/// Counting binds distributes over concatenation.
pub proof fn lemma_count_compute_binds_append(a: Seq<CommandView>, b: Seq<CommandView>)
    ensures
        count_compute_binds(a + b) == count_compute_binds(a) + count_compute_binds(b),
    decreases b.len(),
{
    if b.len() > 0 {
        lemma_count_compute_binds_append(a, b.drop_last());
        assert((a + b).drop_last() =~= a + b.drop_last());
    } else {
        assert(a + b =~= a);
    }
}

} // verus!
