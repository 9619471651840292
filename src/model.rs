//! The recorder as a mathematical value, and what each operation does to it.
use vstd::prelude::*;
use crate::command::{contents_of, CommandView};
use crate::error::{
    AutoCommandBufferBuilderContextError, BeginRenderPassError, BuildError, ClearColorImageError,
    CopyBufferError, CopyBufferToImageError, DispatchError, DrawError, DrawIndexedError,
    DrawIndirectError, FillBufferError, UpdateBufferError,
};
use crate::resources::{
    Buffer, ClearValue, ComputePipeline, DescriptorSet, Device, DynamicStateView, Framebuffer,
    GraphicsPipeline, Image, IndexType, PushConstantRange,
};
use crate::state_cache::{empty_cache, filter_dynamic_state, CacheView};
use crate::validity::{
    clear_color_image_check, copy_buffer_check, descriptor_sets_check, dispatch_check,
    dynamic_state_check, fill_buffer_check, index_buffer_check, push_constants_fit,
    update_buffer_check, vertex_buffers_check, CheckPushConstantsValidityError,
};

verus! {

/// The mathematical value of a recorder.
pub struct RecorderView {
    pub device: Device,
    pub queue_family: u32,
    /// Commands recorded so far, oldest first.
    pub commands: Seq<CommandView>,
    /// What the commands have bound.
    pub cache: CacheView,
    /// Subpasses left in the current render pass, or `None` outside a render pass.
    pub subpasses_remaining: Option<u32>,
    /// Whether this is a secondary command buffer.
    pub secondary: bool,
    /// Whether the current subpass only allows secondary command buffers.
    pub subpass_secondary: bool,
}

/// The view of a recorder that has just been created.
pub open spec fn fresh_view(device: Device, queue_family: u32, secondary: bool) -> RecorderView {
    RecorderView {
        device,
        queue_family,
        commands: Seq::empty(),
        cache: empty_cache(),
        subpasses_remaining: if secondary { Some(0) } else { None },
        secondary,
        subpass_secondary: false,
    }
}

/// The recorder with `cmds` appended.
pub open spec fn append(v: RecorderView, cmds: Seq<CommandView>) -> RecorderView {
    RecorderView { commands: v.commands + cmds, ..v }
}

/// Succeeds outside a render pass.
pub open spec fn outside_check(v: RecorderView) -> Result<(), AutoCommandBufferBuilderContextError> {
    if v.subpasses_remaining is None {
        Ok(())
    } else {
        Err(AutoCommandBufferBuilderContextError::ForbiddenInsideRenderPass)
    }
}

/// Succeeds inside a subpass whose kind matches `secondary`.
pub open spec fn inside_check(v: RecorderView, secondary: bool) -> Result<
    (),
    AutoCommandBufferBuilderContextError,
> {
    if v.subpasses_remaining is None {
        Err(AutoCommandBufferBuilderContextError::ForbiddenOutsideRenderPass)
    } else if v.subpass_secondary != secondary {
        Err(AutoCommandBufferBuilderContextError::WrongSubpassType)
    } else {
        Ok(())
    }
}

/// Entering a render pass: allowed only in a primary recorder outside any
/// render pass; afterwards all subpasses but the first remain.
pub open spec fn begin_render_pass_outcome(
    v: RecorderView,
    framebuffer: Framebuffer,
    secondary: bool,
    clear_values: Seq<ClearValue>,
) -> Result<RecorderView, BeginRenderPassError> {
    if v.secondary {
        Err(
            BeginRenderPassError::AutoCommandBufferBuilderContextError(
                AutoCommandBufferBuilderContextError::ForbiddenInSecondary,
            ),
        )
    } else if v.subpasses_remaining is Some {
        Err(
            BeginRenderPassError::AutoCommandBufferBuilderContextError(
                AutoCommandBufferBuilderContextError::ForbiddenInsideRenderPass,
            ),
        )
    } else {
        Ok(
            RecorderView {
                commands: v.commands + seq![
                    CommandView::BeginRenderPass {
                        framebuffer: framebuffer.id,
                        contents: contents_of(secondary),
                        clear_values,
                    },
                ],
                subpasses_remaining: Some((framebuffer.num_subpasses - 1) as u32),
                subpass_secondary: secondary,
                ..v
            },
        )
    }
}

/// Moving to the next subpass: allowed only in a primary recorder inside a
/// render pass with at least one subpass remaining.
pub open spec fn next_subpass_outcome(v: RecorderView, secondary: bool) -> Result<
    RecorderView,
    AutoCommandBufferBuilderContextError,
> {
    if v.secondary {
        Err(AutoCommandBufferBuilderContextError::ForbiddenInSecondary)
    } else if v.subpasses_remaining is None {
        Err(AutoCommandBufferBuilderContextError::ForbiddenOutsideRenderPass)
    } else if v.subpasses_remaining.unwrap() == 0 {
        Err(AutoCommandBufferBuilderContextError::NumSubpassesMismatch)
    } else {
        Ok(
            RecorderView {
                commands: v.commands + seq![CommandView::NextSubpass { contents: contents_of(secondary) }],
                subpasses_remaining: Some((v.subpasses_remaining.unwrap() - 1) as u32),
                subpass_secondary: secondary,
                ..v
            },
        )
    }
}

/// Leaving a render pass: allowed only in a primary recorder inside a render
/// pass with no subpass remaining.
pub open spec fn end_render_pass_outcome(v: RecorderView) -> Result<
    RecorderView,
    AutoCommandBufferBuilderContextError,
> {
    if v.secondary {
        Err(AutoCommandBufferBuilderContextError::ForbiddenInSecondary)
    } else if v.subpasses_remaining is None {
        Err(AutoCommandBufferBuilderContextError::ForbiddenOutsideRenderPass)
    } else if v.subpasses_remaining.unwrap() != 0 {
        Err(AutoCommandBufferBuilderContextError::NumSubpassesMismatch)
    } else {
        Ok(
            RecorderView {
                commands: v.commands + seq![CommandView::EndRenderPass],
                subpasses_remaining: None,
                ..v
            },
        )
    }
}

/// The commands of the finished command buffer, or why it cannot be built.
pub open spec fn build_outcome(v: RecorderView) -> Result<Seq<CommandView>, BuildError> {
    if v.secondary {
        Err(
            BuildError::AutoCommandBufferBuilderContextError(
                AutoCommandBufferBuilderContextError::ForbiddenInSecondary,
            ),
        )
    } else if v.subpasses_remaining is Some {
        Err(
            BuildError::AutoCommandBufferBuilderContextError(
                AutoCommandBufferBuilderContextError::ForbiddenInsideRenderPass,
            ),
        )
    } else {
        Ok(v.commands)
    }
}

/// Clearing an image: outside a render pass, with layers and levels in range.
pub open spec fn clear_color_image_outcome(
    v: RecorderView,
    image: Image,
    first_layer: u32,
    num_layers: u32,
    first_mipmap: u32,
    num_mipmaps: u32,
    color: ClearValue,
) -> Result<RecorderView, ClearColorImageError> {
    if let Err(e) = outside_check(v) {
        Err(ClearColorImageError::AutoCommandBufferBuilderContextError(e))
    } else if let Err(e) = clear_color_image_check(
        image,
        first_layer,
        num_layers,
        first_mipmap,
        num_mipmaps,
    ) {
        Err(ClearColorImageError::CheckClearColorImageError(e))
    } else {
        Ok(
            append(
                v,
                seq![
                    CommandView::ClearColorImage {
                        image: image.id,
                        color,
                        base_mip_level: first_mipmap,
                        level_count: num_mipmaps,
                        base_array_layer: first_layer,
                        layer_count: num_layers,
                    },
                ],
            ),
        )
    }
}

/// Copying between buffers: outside a render pass; the copy starts at the
/// beginning of both and covers the shorter one.
pub open spec fn copy_buffer_outcome(v: RecorderView, source: Buffer, destination: Buffer) -> Result<
    RecorderView,
    CopyBufferError,
> {
    if let Err(e) = outside_check(v) {
        Err(CopyBufferError::AutoCommandBufferBuilderContextError(e))
    } else if let Err(e) = copy_buffer_check(source, destination) {
        Err(CopyBufferError::CheckCopyBufferError(e))
    } else {
        Ok(
            append(
                v,
                seq![
                    CommandView::CopyBuffer {
                        source: source.id,
                        destination: destination.id,
                        source_offset: 0,
                        destination_offset: 0,
                        size: copy_buffer_check(source, destination).unwrap().copy_size,
                    },
                ],
            ),
        )
    }
}

/// Copying from a buffer to an image: outside a render pass, to a color image only.
pub open spec fn copy_buffer_to_image_outcome(
    v: RecorderView,
    source: Buffer,
    destination: Image,
    offset: [u32; 3],
    size: [u32; 3],
    first_layer: u32,
    num_layers: u32,
    mipmap: u32,
) -> Result<RecorderView, CopyBufferToImageError> {
    if let Err(e) = outside_check(v) {
        Err(CopyBufferToImageError::AutoCommandBufferBuilderContextError(e))
    } else if !destination.has_color {
        Err(CopyBufferToImageError::UnsupportedAspect)
    } else {
        Ok(
            append(
                v,
                seq![
                    CommandView::CopyBufferToImage {
                        source: source.id,
                        destination: destination.id,
                        buffer_offset: 0,
                        image_mip_level: mipmap,
                        image_base_array_layer: first_layer,
                        image_layer_count: num_layers,
                        image_offset: offset,
                        image_extent: size,
                    },
                ],
            ),
        )
    }
}

/// Filling a buffer: outside a render pass, on an aligned transfer destination.
pub open spec fn fill_buffer_outcome(v: RecorderView, buffer: Buffer, data: u32) -> Result<
    RecorderView,
    FillBufferError,
> {
    if let Err(e) = outside_check(v) {
        Err(FillBufferError::AutoCommandBufferBuilderContextError(e))
    } else if let Err(e) = fill_buffer_check(buffer) {
        Err(FillBufferError::CheckFillBufferError(e))
    } else {
        Ok(append(v, seq![CommandView::FillBuffer { buffer: buffer.id, data }]))
    }
}

/// Updating a buffer inline: outside a render pass, with data that passes the
/// checks and is shorter than the buffer.
pub open spec fn update_buffer_outcome(v: RecorderView, buffer: Buffer, data: Seq<u8>) -> Result<
    RecorderView,
    UpdateBufferError,
> {
    if let Err(e) = outside_check(v) {
        Err(UpdateBufferError::AutoCommandBufferBuilderContextError(e))
    } else if let Err(e) = update_buffer_check(buffer, data.len()) {
        Err(UpdateBufferError::CheckUpdateBufferError(e))
    } else if buffer.size <= data.len() {
        Err(UpdateBufferError::UnsupportedSize)
    } else {
        Ok(append(v, seq![CommandView::UpdateBuffer { buffer: buffer.id, data }]))
    }
}

/// Identities of descriptor sets, in order.
pub open spec fn set_ids(sets: Seq<DescriptorSet>) -> Seq<u64> {
    sets.map_values(|d: DescriptorSet| d.id)
}

/// One push-constant command per range of the layout, each with the bytes
/// of `data` that the range covers.
pub open spec fn push_constant_commands(pipeline: u64, ranges: Seq<PushConstantRange>, data: Seq<u8>) -> Seq<CommandView> {
    Seq::new(
        ranges.len(),
        |i: int|
            CommandView::PushConstants {
                pipeline,
                stages: ranges[i].stages,
                offset: ranges[i].offset,
                size: ranges[i].size,
                data: data.subrange(ranges[i].offset as int, ranges[i].offset + ranges[i].size),
            },
    )
}

/// The commands that set each field that `d` holds.
pub open spec fn dynamic_state_commands(d: DynamicStateView) -> Seq<CommandView> {
    (if d.line_width is Some {
        seq![CommandView::SetLineWidth { line_width: d.line_width.unwrap() }]
    } else {
        Seq::empty()
    }) + (if d.viewports is Some {
        seq![CommandView::SetViewport { first: 0, viewports: d.viewports.unwrap() }]
    } else {
        Seq::empty()
    }) + (if d.scissors is Some {
        seq![CommandView::SetScissor { first: 0, scissors: d.scissors.unwrap() }]
    } else {
        Seq::empty()
    })
}

/// The compute-pipeline bind, unless `pipeline` is already bound.
pub open spec fn compute_bind_commands(c: CacheView, pipeline: u64) -> Seq<CommandView> {
    if c.compute_pipeline == Some(pipeline) {
        Seq::empty()
    } else {
        seq![CommandView::BindPipelineCompute { pipeline }]
    }
}

/// A compute dispatch: outside a render pass, with inputs that fit the
/// pipeline and dimensions within the device limits. The pipeline bind is
/// emitted only when another pipeline (or none) was bound.
pub open spec fn dispatch_outcome(
    v: RecorderView,
    dimensions: [u32; 3],
    pipeline: ComputePipeline,
    sets: Seq<DescriptorSet>,
    constants: Seq<u8>,
) -> Result<RecorderView, DispatchError> {
    if let Err(e) = outside_check(v) {
        Err(DispatchError::AutoCommandBufferBuilderContextError(e))
    } else if !push_constants_fit(pipeline.layout.push_constant_ranges@, constants.len()) {
        Err(
            DispatchError::CheckPushConstantsValidityError(
                CheckPushConstantsValidityError::IncompatiblePushConstants,
            ),
        )
    } else if let Err(e) = descriptor_sets_check(pipeline.layout, sets) {
        Err(DispatchError::CheckDescriptorSetsValidityError(e))
    } else if let Err(e) = dispatch_check(v.device, dimensions) {
        Err(DispatchError::CheckDispatchError(e))
    } else {
        Ok(
            RecorderView {
                commands: v.commands + compute_bind_commands(v.cache, pipeline.id)
                    + push_constant_commands(
                    pipeline.id,
                    pipeline.layout.push_constant_ranges@,
                    constants,
                ) + seq![
                    CommandView::BindDescriptorSets {
                        graphics: false,
                        pipeline: pipeline.id,
                        first_set: 0,
                        sets: set_ids(sets),
                    },
                    CommandView::Dispatch { dimensions },
                ],
                cache: CacheView { compute_pipeline: Some(pipeline.id), ..v.cache },
                ..v
            },
        )
    }
}

/// The commands that set up the graphics state of a draw, and the cache
/// afterwards. Binds of the pipeline, of the index buffer (where the draw
/// has one) and of dynamic state are left out where the cache already holds
/// them; push constants, descriptor sets and vertex buffers always go out.
pub open spec fn graphics_state(
    c: CacheView,
    pipeline: GraphicsPipeline,
    index: Option<(u64, IndexType)>,
    dynamic: DynamicStateView,
    sets: Seq<DescriptorSet>,
    constants: Seq<u8>,
    vertex_buffers: Seq<u64>,
) -> (Seq<CommandView>, CacheView) {
    let bind_pipeline = if c.graphics_pipeline == Some(pipeline.id) {
        Seq::empty()
    } else {
        seq![CommandView::BindPipelineGraphics { pipeline: pipeline.id }]
    };
    let c1 = CacheView { graphics_pipeline: Some(pipeline.id), ..c };
    let bind_index = match index {
        Some(ib) => if c1.index_buffer == Some(ib) {
            Seq::empty()
        } else {
            seq![CommandView::BindIndexBuffer { buffer: ib.0, index_type: ib.1 }]
        },
        None => Seq::empty(),
    };
    let c2 = match index {
        Some(ib) => CacheView { index_buffer: Some(ib), ..c1 },
        None => c1,
    };
    let filtered = filter_dynamic_state(c2, dynamic);
    (
        bind_pipeline + bind_index + push_constant_commands(
            pipeline.id,
            pipeline.layout.push_constant_ranges@,
            constants,
        ) + dynamic_state_commands(filtered.0) + seq![
            CommandView::BindDescriptorSets {
                graphics: true,
                pipeline: pipeline.id,
                first_set: 0,
                sets: set_ids(sets),
            },
            CommandView::BindVertexBuffers { first_binding: 0, buffers: vertex_buffers },
        ],
        filtered.1,
    )
}

/// The recorder after the graphics state of a draw and the draw command itself.
pub open spec fn after_draw(
    v: RecorderView,
    pipeline: GraphicsPipeline,
    index: Option<(u64, IndexType)>,
    dynamic: DynamicStateView,
    sets: Seq<DescriptorSet>,
    constants: Seq<u8>,
    vertex_buffers: Seq<u64>,
    draw: CommandView,
) -> RecorderView {
    let g = graphics_state(v.cache, pipeline, index, dynamic, sets, constants, vertex_buffers);
    RecorderView { commands: v.commands + g.0 + seq![draw], cache: g.1, ..v }
}

/// A draw: inside an inline subpass, with inputs that fit the pipeline; the
/// counts come from the vertex buffers.
pub open spec fn draw_outcome(
    v: RecorderView,
    pipeline: GraphicsPipeline,
    dynamic: DynamicStateView,
    vertices: Seq<Buffer>,
    sets: Seq<DescriptorSet>,
    constants: Seq<u8>,
) -> Result<RecorderView, DrawError> {
    if let Err(e) = inside_check(v, false) {
        Err(DrawError::AutoCommandBufferBuilderContextError(e))
    } else if let Err(e) = dynamic_state_check(pipeline, dynamic) {
        Err(DrawError::CheckDynamicStateValidityError(e))
    } else if !push_constants_fit(pipeline.layout.push_constant_ranges@, constants.len()) {
        Err(
            DrawError::CheckPushConstantsValidityError(
                CheckPushConstantsValidityError::IncompatiblePushConstants,
            ),
        )
    } else if let Err(e) = descriptor_sets_check(pipeline.layout, sets) {
        Err(DrawError::CheckDescriptorSetsValidityError(e))
    } else if let Err(e) = vertex_buffers_check(pipeline, vertices) {
        Err(DrawError::CheckVertexBufferError(e))
    } else {
        let vb = vertex_buffers_check(pipeline, vertices).unwrap();
        Ok(
            after_draw(
                v,
                pipeline,
                None,
                dynamic,
                sets,
                constants,
                vb.0,
                CommandView::Draw {
                    vertex_count: vb.1,
                    instance_count: vb.2,
                    first_vertex: 0,
                    first_instance: 0,
                },
            ),
        )
    }
}

/// An indexed draw: as a draw, plus an index buffer whose size gives the
/// number of indices.
pub open spec fn draw_indexed_outcome(
    v: RecorderView,
    pipeline: GraphicsPipeline,
    dynamic: DynamicStateView,
    vertices: Seq<Buffer>,
    index_buffer: Buffer,
    index_type: IndexType,
    sets: Seq<DescriptorSet>,
    constants: Seq<u8>,
) -> Result<RecorderView, DrawIndexedError> {
    if let Err(e) = inside_check(v, false) {
        Err(DrawIndexedError::AutoCommandBufferBuilderContextError(e))
    } else if let Err(e) = index_buffer_check(index_buffer, index_type) {
        Err(DrawIndexedError::CheckIndexBufferError(e))
    } else if let Err(e) = dynamic_state_check(pipeline, dynamic) {
        Err(DrawIndexedError::CheckDynamicStateValidityError(e))
    } else if !push_constants_fit(pipeline.layout.push_constant_ranges@, constants.len()) {
        Err(
            DrawIndexedError::CheckPushConstantsValidityError(
                CheckPushConstantsValidityError::IncompatiblePushConstants,
            ),
        )
    } else if let Err(e) = descriptor_sets_check(pipeline.layout, sets) {
        Err(DrawIndexedError::CheckDescriptorSetsValidityError(e))
    } else if let Err(e) = vertex_buffers_check(pipeline, vertices) {
        Err(DrawIndexedError::CheckVertexBufferError(e))
    } else {
        let vb = vertex_buffers_check(pipeline, vertices).unwrap();
        Ok(
            after_draw(
                v,
                pipeline,
                Some((index_buffer.id, index_type)),
                dynamic,
                sets,
                constants,
                vb.0,
                CommandView::DrawIndexed {
                    index_count: index_buffer_check(index_buffer, index_type).unwrap().num_indices,
                    instance_count: 1,
                    first_index: 0,
                    vertex_offset: 0,
                    first_instance: 0,
                },
            ),
        )
    }
}

/// Size in bytes of one indirect draw record: four 32-bit words.
pub const INDIRECT_DRAW_STRIDE: u32 = 16;

/// An indirect draw: as a draw, with one draw per record of the indirect buffer.
pub open spec fn draw_indirect_outcome(
    v: RecorderView,
    pipeline: GraphicsPipeline,
    dynamic: DynamicStateView,
    vertices: Seq<Buffer>,
    indirect_buffer: Buffer,
    sets: Seq<DescriptorSet>,
    constants: Seq<u8>,
) -> Result<RecorderView, DrawIndirectError> {
    if let Err(e) = inside_check(v, false) {
        Err(DrawIndirectError::AutoCommandBufferBuilderContextError(e))
    } else if let Err(e) = dynamic_state_check(pipeline, dynamic) {
        Err(DrawIndirectError::CheckDynamicStateValidityError(e))
    } else if !push_constants_fit(pipeline.layout.push_constant_ranges@, constants.len()) {
        Err(
            DrawIndirectError::CheckPushConstantsValidityError(
                CheckPushConstantsValidityError::IncompatiblePushConstants,
            ),
        )
    } else if let Err(e) = descriptor_sets_check(pipeline.layout, sets) {
        Err(DrawIndirectError::CheckDescriptorSetsValidityError(e))
    } else if let Err(e) = vertex_buffers_check(pipeline, vertices) {
        Err(DrawIndirectError::CheckVertexBufferError(e))
    } else {
        let vb = vertex_buffers_check(pipeline, vertices).unwrap();
        Ok(
            after_draw(
                v,
                pipeline,
                None,
                dynamic,
                sets,
                constants,
                vb.0,
                CommandView::DrawIndirect {
                    buffer: indirect_buffer.id,
                    draw_count: (indirect_buffer.size / INDIRECT_DRAW_STRIDE as u64) as u64,
                    stride: INDIRECT_DRAW_STRIDE,
                },
            ),
        )
    }
}

} // verus!
