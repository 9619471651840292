//! The command recorder: render-pass tracking, state caching and the
//! operations that append commands.
use vstd::prelude::*;
use crate::command::{Command, CommandView, SubpassContents};
use crate::error::{
    AutoCommandBufferBuilderContextError, BeginRenderPassError, BuildError, ClearColorImageError,
    CopyBufferError, CopyBufferToImageError, DispatchError, DrawError, DrawIndexedError,
    DrawIndirectError, FillBufferError, OomError, UpdateBufferError,
};
use crate::model::{
    append, begin_render_pass_outcome, build_outcome, clear_color_image_outcome,
    compute_bind_commands, copy_buffer_outcome, copy_buffer_to_image_outcome, dispatch_outcome,
    draw_indexed_outcome, draw_indirect_outcome, draw_outcome, dynamic_state_commands,
    end_render_pass_outcome, fill_buffer_outcome, fresh_view, graphics_state, inside_check,
    next_subpass_outcome, outside_check, push_constant_commands, set_ids, update_buffer_outcome,
    RecorderView, INDIRECT_DRAW_STRIDE,
};
use crate::resources::{
    Buffer, ClearValue, ComputePipeline, DescriptorSet, Device, DynamicState, Framebuffer,
    GraphicsPipeline, Image, IndexType, PushConstantRange,
};
use crate::state_cache::{StateCacher, StateCacherOutcome};
use crate::validity::{
    check_clear_color_image, check_copy_buffer, check_descriptor_sets_validity, check_dispatch,
    check_dynamic_state_validity, check_fill_buffer, check_index_buffer,
    check_push_constants_validity, check_update_buffer, check_vertex_buffers, push_constants_fit,
    range_covered,
};

verus! {

/// Records commands, checking each against the render-pass structure and the
/// resources it names, and skipping binds of state that is already bound.
pub struct AutoCommandBufferBuilder {
    device: Device,
    queue_family: u32,
    commands: Vec<Command>,
    state_cacher: StateCacher,
    subpasses_remaining: Option<u32>,
    secondary_cb: bool,
    subpass_secondary: bool,
}

/// The values of recorded commands.
pub open spec fn commands_view(cmds: Seq<Command>) -> Seq<CommandView> {
    cmds.map_values(|c: Command| c@)
}

impl View for AutoCommandBufferBuilder {
    type V = RecorderView;

    closed spec fn view(&self) -> RecorderView {
        RecorderView {
            device: self.device,
            queue_family: self.queue_family,
            commands: commands_view(self.commands@),
            cache: self.state_cacher@,
            subpasses_remaining: self.subpasses_remaining,
            secondary: self.secondary_cb,
            subpass_secondary: self.subpass_secondary,
        }
    }
}

/// Whether `r` is the recorder that `o` describes, or the same error.
pub open spec fn same_outcome<E>(r: Result<AutoCommandBufferBuilder, E>, o: Result<RecorderView, E>) -> bool {
    match (r, o) {
        (Ok(b), Ok(v)) => b@ == v,
        (Err(e), Err(f)) => e == f,
        _ => false,
    }
}

/// The bytes `data[start..start + len]`.
fn slice_bytes(data: &Vec<u8>, start: u32, len: u32) -> (r: Vec<u8>)
    requires
        start + len <= data@.len(),
    ensures
        r@ == data@.subrange(start as int, start + len),
{
    let mut r: Vec<u8> = Vec::new();
    let n: usize = data.len();
    assert(start + len <= n);
    let mut i: usize = start as usize;
    let end: usize = start as usize + len as usize;
    while i < end
        invariant
            start <= i <= end,
            end == start + len,
            end <= data@.len(),
            r@ == data@.subrange(start as int, i as int),
        decreases end - i,
    {
        r.push(data[i]);
        i += 1;
        assert(r@ =~= data@.subrange(start as int, i as int));
    }
    r
}

/// Identities of descriptor sets, in order.
fn descriptor_set_ids(sets: &Vec<DescriptorSet>) -> (r: Vec<u64>)
    ensures
        r@ == set_ids(sets@),
{
    let mut r: Vec<u64> = Vec::new();
    let mut i: usize = 0;
    while i < sets.len()
        invariant
            i <= sets@.len(),
            r@ == set_ids(sets@).subrange(0, i as int),
        decreases sets.len() - i,
    {
        r.push(sets[i].id);
        i += 1;
        assert(r@ =~= set_ids(sets@).subrange(0, i as int));
    }
    assert(r@ =~= set_ids(sets@));
    r
}

/// A finished, immutable command buffer.
pub struct AutoCommandBuffer {
    device: Device,
    queue_family: u32,
    commands: Vec<Command>,
}

impl AutoCommandBuffer {
    pub closed spec fn commands_spec(&self) -> Seq<CommandView> {
        commands_view(self.commands@)
    }

    pub closed spec fn device_spec(&self) -> Device {
        self.device
    }

    pub closed spec fn queue_family_spec(&self) -> u32 {
        self.queue_family
    }

    /// The recorded commands, oldest first.
    pub fn commands(&self) -> (r: &Vec<Command>)
        ensures
            commands_view(r@) == self.commands_spec(),
    {
        &self.commands
    }

    /// The device the commands were recorded for.
    pub fn device(&self) -> (r: &Device)
        ensures
            *r == self.device_spec(),
    {
        &self.device
    }

    /// The queue family the commands were recorded for.
    pub fn queue_family(&self) -> (r: u32)
        ensures
            r == self.queue_family_spec(),
    {
        self.queue_family
    }
}

impl AutoCommandBufferBuilder {
    /// A primary recorder, outside any render pass, with nothing recorded.
    pub fn new(device: Device, queue_family: u32) -> (r: Result<AutoCommandBufferBuilder, OomError>)
        ensures
            r matches Ok(b) && b@ == fresh_view(device, queue_family, false),
    {
        let commands: Vec<Command> = Vec::new();
        assert(commands_view(commands@) =~= Seq::<CommandView>::empty());
        Ok(
            AutoCommandBufferBuilder {
                device,
                queue_family,
                commands,
                state_cacher: StateCacher::new(),
                subpasses_remaining: None,
                secondary_cb: false,
                subpass_secondary: false,
            },
        )
    }

    /// A secondary recorder. It runs inside an inline subpass that it
    /// inherits from the command buffer that executes it, and can neither
    /// change that render pass nor be built on its own.
    pub fn secondary(device: Device, queue_family: u32) -> (r: Result<AutoCommandBufferBuilder, OomError>)
        ensures
            r matches Ok(b) && b@ == fresh_view(device, queue_family, true),
    {
        let commands: Vec<Command> = Vec::new();
        assert(commands_view(commands@) =~= Seq::<CommandView>::empty());
        Ok(
            AutoCommandBufferBuilder {
                device,
                queue_family,
                commands,
                state_cacher: StateCacher::new(),
                subpasses_remaining: Some(0),
                secondary_cb: true,
                subpass_secondary: false,
            },
        )
    }

    /// The device that commands are recorded for.
    pub fn device(&self) -> (r: &Device)
        ensures
            *r == self@.device,
    {
        &self.device
    }

    /// Appends one command.
    fn emit(&mut self, c: Command)
        ensures
            final(self)@ == append(old(self)@, seq![c@]),
    {
        self.commands.push(c);
        assert(commands_view(self.commands@) =~= commands_view(old(self).commands@) + seq![c@]);
    }

    fn ensure_outside_render_pass(&self) -> (r: Result<(), AutoCommandBufferBuilderContextError>)
        ensures
            r == outside_check(self@),
    {
        if self.subpasses_remaining.is_none() {
            Ok(())
        } else {
            Err(AutoCommandBufferBuilderContextError::ForbiddenInsideRenderPass)
        }
    }

    fn ensure_inside_render_pass(&self, secondary: bool) -> (r: Result<
        (),
        AutoCommandBufferBuilderContextError,
    >)
        ensures
            r == inside_check(self@, secondary),
    {
        if self.subpasses_remaining.is_some() {
            if self.subpass_secondary == secondary {
                Ok(())
            } else {
                Err(AutoCommandBufferBuilderContextError::WrongSubpassType)
            }
        } else {
            Err(AutoCommandBufferBuilderContextError::ForbiddenOutsideRenderPass)
        }
    }

    /// Finishes recording. Only a primary recorder outside any render pass
    /// can be built.
    pub fn build(self) -> (r: Result<AutoCommandBuffer, BuildError>)
        ensures
            match (r, build_outcome(self@)) {
                (Ok(cb), Ok(cmds)) => cb.commands_spec() == cmds && cb.device_spec() == self@.device
                    && cb.queue_family_spec() == self@.queue_family,
                (Err(e), Err(f)) => e == f,
                _ => false,
            },
    {
        if self.secondary_cb {
            return Err(
                BuildError::AutoCommandBufferBuilderContextError(
                    AutoCommandBufferBuilderContextError::ForbiddenInSecondary,
                ),
            );
        }
        match self.ensure_outside_render_pass() {
            Err(e) => Err(BuildError::AutoCommandBufferBuilderContextError(e)),
            Ok(_) => Ok(
                AutoCommandBuffer {
                    device: self.device,
                    queue_family: self.queue_family,
                    commands: self.commands,
                },
            ),
        }
    }

    /// Enters a render pass. Inside its first subpass, only secondary command
    /// buffers may be executed if `secondary` is true, and only inline draws
    /// if it is false.
    pub fn begin_render_pass(self, framebuffer: Framebuffer, secondary: bool, clear_values: Vec<ClearValue>) -> (r: Result<
        AutoCommandBufferBuilder,
        BeginRenderPassError,
    >)
        requires
            framebuffer.num_subpasses > 0,
        ensures
            same_outcome(r, begin_render_pass_outcome(self@, framebuffer, secondary, clear_values@)),
    {
        let mut b = self;
        if b.secondary_cb {
            return Err(
                BeginRenderPassError::AutoCommandBufferBuilderContextError(
                    AutoCommandBufferBuilderContextError::ForbiddenInSecondary,
                ),
            );
        }
        if let Err(e) = b.ensure_outside_render_pass() {
            return Err(BeginRenderPassError::AutoCommandBufferBuilderContextError(e));
        }
        let contents = if secondary {
            SubpassContents::SecondaryCommandBuffers
        } else {
            SubpassContents::Inline
        };
        b.emit(Command::BeginRenderPass { framebuffer: framebuffer.id, contents, clear_values });
        b.subpasses_remaining = Some(framebuffer.num_subpasses - 1);
        b.subpass_secondary = secondary;
        Ok(b)
    }

    /// Moves to the next subpass of the current render pass.
    pub fn next_subpass(self, secondary: bool) -> (r: Result<
        AutoCommandBufferBuilder,
        AutoCommandBufferBuilderContextError,
    >)
        ensures
            same_outcome(r, next_subpass_outcome(self@, secondary)),
    {
        let mut b = self;
        if b.secondary_cb {
            return Err(AutoCommandBufferBuilderContextError::ForbiddenInSecondary);
        }
        let remaining = match b.subpasses_remaining {
            None => {
                return Err(AutoCommandBufferBuilderContextError::ForbiddenOutsideRenderPass);
            },
            Some(n) => n,
        };
        if remaining == 0 {
            return Err(AutoCommandBufferBuilderContextError::NumSubpassesMismatch);
        }
        let contents = if secondary {
            SubpassContents::SecondaryCommandBuffers
        } else {
            SubpassContents::Inline
        };
        b.emit(Command::NextSubpass { contents });
        b.subpasses_remaining = Some(remaining - 1);
        b.subpass_secondary = secondary;
        Ok(b)
    }

    /// Leaves the current render pass, once every subpass has been gone through.
    pub fn end_render_pass(self) -> (r: Result<
        AutoCommandBufferBuilder,
        AutoCommandBufferBuilderContextError,
    >)
        ensures
            same_outcome(r, end_render_pass_outcome(self@)),
    {
        let mut b = self;
        if b.secondary_cb {
            return Err(AutoCommandBufferBuilderContextError::ForbiddenInSecondary);
        }
        match b.subpasses_remaining {
            None => {
                return Err(AutoCommandBufferBuilderContextError::ForbiddenOutsideRenderPass);
            },
            Some(n) => {
                if n != 0 {
                    return Err(AutoCommandBufferBuilderContextError::NumSubpassesMismatch);
                }
            },
        }
        b.emit(Command::EndRenderPass);
        b.subpasses_remaining = None;
        Ok(b)
    }

    /// Clears every layer and mipmap level of a color image to `color`.
    pub fn clear_color_image(self, image: Image, color: ClearValue) -> (r: Result<
        AutoCommandBufferBuilder,
        ClearColorImageError,
    >)
        requires
            color.is_color(),
        ensures
            same_outcome(
                r,
                clear_color_image_outcome(
                    self@,
                    image,
                    0,
                    image.array_layers,
                    0,
                    image.mipmap_levels,
                    color,
                ),
            ),
    {
        let layers = image.array_layers;
        let levels = image.mipmap_levels;
        self.clear_color_image_dimensions(image, 0, layers, 0, levels, color)
    }

    /// Clears a range of layers and mipmap levels of a color image to `color`.
    pub fn clear_color_image_dimensions(
        self,
        image: Image,
        first_layer: u32,
        num_layers: u32,
        first_mipmap: u32,
        num_mipmaps: u32,
        color: ClearValue,
    ) -> (r: Result<AutoCommandBufferBuilder, ClearColorImageError>)
        requires
            color.is_color(),
        ensures
            same_outcome(
                r,
                clear_color_image_outcome(
                    self@,
                    image,
                    first_layer,
                    num_layers,
                    first_mipmap,
                    num_mipmaps,
                    color,
                ),
            ),
    {
        let mut b = self;
        if let Err(e) = b.ensure_outside_render_pass() {
            return Err(ClearColorImageError::AutoCommandBufferBuilderContextError(e));
        }
        if let Err(e) = check_clear_color_image(
            &image,
            first_layer,
            num_layers,
            first_mipmap,
            num_mipmaps,
        ) {
            return Err(ClearColorImageError::CheckClearColorImageError(e));
        }
        b.emit(
            Command::ClearColorImage {
                image: image.id,
                color,
                base_mip_level: first_mipmap,
                level_count: num_mipmaps,
                base_array_layer: first_layer,
                layer_count: num_layers,
            },
        );
        Ok(b)
    }

    /// Copies from one buffer to another, starting at the beginning of both.
    /// Where their sizes differ, the length of the shorter one is copied.
    pub fn copy_buffer(self, source: Buffer, destination: Buffer) -> (r: Result<
        AutoCommandBufferBuilder,
        CopyBufferError,
    >)
        ensures
            same_outcome(r, copy_buffer_outcome(self@, source, destination)),
    {
        let mut b = self;
        if let Err(e) = b.ensure_outside_render_pass() {
            return Err(CopyBufferError::AutoCommandBufferBuilderContextError(e));
        }
        let infos = match check_copy_buffer(&source, &destination) {
            Err(e) => {
                return Err(CopyBufferError::CheckCopyBufferError(e));
            },
            Ok(infos) => infos,
        };
        b.emit(
            Command::CopyBuffer {
                source: source.id,
                destination: destination.id,
                source_offset: 0,
                destination_offset: 0,
                size: infos.copy_size,
            },
        );
        Ok(b)
    }

    /// Copies from a buffer to the whole of the first layer and mipmap level of an image.
    pub fn copy_buffer_to_image(self, source: Buffer, destination: Image) -> (r: Result<
        AutoCommandBufferBuilder,
        CopyBufferToImageError,
    >)
        ensures
            same_outcome(
                r,
                copy_buffer_to_image_outcome(
                    self@,
                    source,
                    destination,
                    [0, 0, 0],
                    [destination.width, destination.height, destination.depth],
                    0,
                    1,
                    0,
                ),
            ),
    {
        if let Err(e) = self.ensure_outside_render_pass() {
            return Err(CopyBufferToImageError::AutoCommandBufferBuilderContextError(e));
        }
        let dims = [destination.width, destination.height, destination.depth];
        self.copy_buffer_to_image_dimensions(source, destination, [0, 0, 0], dims, 0, 1, 0)
    }

    /// Copies from a buffer to a region of an image. Only images with a color
    /// aspect are supported.
    pub fn copy_buffer_to_image_dimensions(
        self,
        source: Buffer,
        destination: Image,
        offset: [u32; 3],
        size: [u32; 3],
        first_layer: u32,
        num_layers: u32,
        mipmap: u32,
    ) -> (r: Result<AutoCommandBufferBuilder, CopyBufferToImageError>)
        ensures
            same_outcome(
                r,
                copy_buffer_to_image_outcome(
                    self@,
                    source,
                    destination,
                    offset,
                    size,
                    first_layer,
                    num_layers,
                    mipmap,
                ),
            ),
    {
        let mut b = self;
        if let Err(e) = b.ensure_outside_render_pass() {
            return Err(CopyBufferToImageError::AutoCommandBufferBuilderContextError(e));
        }
        if !destination.has_color {
            return Err(CopyBufferToImageError::UnsupportedAspect);
        }
        b.emit(
            Command::CopyBufferToImage {
                source: source.id,
                destination: destination.id,
                buffer_offset: 0,
                image_mip_level: mipmap,
                image_base_array_layer: first_layer,
                image_layer_count: num_layers,
                image_offset: offset,
                image_extent: size,
            },
        );
        Ok(b)
    }

    /// Fills a buffer with a repeated 32-bit word.
    pub fn fill_buffer(self, buffer: Buffer, data: u32) -> (r: Result<
        AutoCommandBufferBuilder,
        FillBufferError,
    >)
        ensures
            same_outcome(r, fill_buffer_outcome(self@, buffer, data)),
    {
        let mut b = self;
        if let Err(e) = b.ensure_outside_render_pass() {
            return Err(FillBufferError::AutoCommandBufferBuilderContextError(e));
        }
        if let Err(e) = check_fill_buffer(&buffer) {
            return Err(FillBufferError::CheckFillBufferError(e));
        }
        b.emit(Command::FillBuffer { buffer: buffer.id, data });
        Ok(b)
    }

    /// Writes `data` at the start of a buffer. Only buffers larger than the
    /// data are supported.
    pub fn update_buffer(self, buffer: Buffer, data: Vec<u8>) -> (r: Result<
        AutoCommandBufferBuilder,
        UpdateBufferError,
    >)
        ensures
            same_outcome(r, update_buffer_outcome(self@, buffer, data@)),
    {
        let mut b = self;
        if let Err(e) = b.ensure_outside_render_pass() {
            return Err(UpdateBufferError::AutoCommandBufferBuilderContextError(e));
        }
        if let Err(e) = check_update_buffer(&buffer, &data) {
            return Err(UpdateBufferError::CheckUpdateBufferError(e));
        }
        if buffer.size <= data.len() as u64 {
            return Err(UpdateBufferError::UnsupportedSize);
        }
        b.emit(Command::UpdateBuffer { buffer: buffer.id, data });
        Ok(b)
    }

    /// Appends one push-constant command per range of the layout.
    fn emit_push_constants(&mut self, pipeline: u64, ranges: &Vec<PushConstantRange>, data: &Vec<u8>)
        requires
            push_constants_fit(ranges@, data@.len()),
        ensures
            final(self)@ == append(old(self)@, push_constant_commands(pipeline, ranges@, data@)),
    {
        let mut i: usize = 0;
        while i < ranges.len()
            invariant
                i <= ranges@.len(),
                push_constants_fit(ranges@, data@.len()),
                self@ == append(
                    old(self)@,
                    push_constant_commands(pipeline, ranges@.subrange(0, i as int), data@),
                ),
            decreases ranges.len() - i,
        {
            let range = ranges[i];
            assert(range_covered(ranges@[i as int], data@.len()));
            let bytes = slice_bytes(data, range.offset, range.size);
            self.emit(
                Command::PushConstants {
                    pipeline,
                    stages: range.stages,
                    offset: range.offset,
                    size: range.size,
                    data: bytes,
                },
            );
            i += 1;
            assert(push_constant_commands(pipeline, ranges@.subrange(0, i as int), data@)
                =~= push_constant_commands(pipeline, ranges@.subrange(0, i - 1), data@).push(
                CommandView::PushConstants {
                    pipeline,
                    stages: range.stages,
                    offset: range.offset,
                    size: range.size,
                    data: bytes@,
                },
            ));
            assert(self@.commands =~= old(self)@.commands + push_constant_commands(
                pipeline,
                ranges@.subrange(0, i as int),
                data@,
            ));
        }
        assert(ranges@.subrange(0, ranges@.len() as int) =~= ranges@);
    }

    /// Appends the commands that set each field that `dynamic` holds.
    fn emit_dynamic_state(&mut self, dynamic: DynamicState)
        ensures
            final(self)@ == append(old(self)@, dynamic_state_commands(dynamic@)),
    {
        let ghost d = dynamic@;
        let ghost start = self@;
        if let Some(w) = dynamic.line_width {
            self.emit(Command::SetLineWidth { line_width: w });
        }
        if let Some(v) = dynamic.viewports {
            self.emit(Command::SetViewport { first: 0, viewports: v });
        }
        if let Some(sc) = dynamic.scissors {
            self.emit(Command::SetScissor { first: 0, scissors: sc });
        }
        assert(self@.commands =~= start.commands + dynamic_state_commands(d));
    }

    /// Dispatches a compute pipeline over a grid of work groups. The
    /// pipeline is bound only if it is not bound already; its push constants
    /// and descriptor sets are always set.
    pub fn dispatch(
        self,
        dimensions: [u32; 3],
        pipeline: ComputePipeline,
        sets: Vec<DescriptorSet>,
        constants: Vec<u8>,
    ) -> (r: Result<AutoCommandBufferBuilder, DispatchError>)
        ensures
            same_outcome(r, dispatch_outcome(self@, dimensions, pipeline, sets@, constants@)),
    {
        let mut b = self;
        if let Err(e) = b.ensure_outside_render_pass() {
            return Err(DispatchError::AutoCommandBufferBuilderContextError(e));
        }
        if let Err(e) = check_push_constants_validity(&pipeline.layout, &constants) {
            return Err(DispatchError::CheckPushConstantsValidityError(e));
        }
        if let Err(e) = check_descriptor_sets_validity(&pipeline.layout, &sets) {
            return Err(DispatchError::CheckDescriptorSetsValidityError(e));
        }
        if let Err(e) = check_dispatch(&b.device, dimensions) {
            return Err(DispatchError::CheckDispatchError(e));
        }
        let ghost start = b@;
        if let StateCacherOutcome::NeedChange = b.state_cacher.bind_compute_pipeline(pipeline.id) {
            b.emit(Command::BindPipelineCompute { pipeline: pipeline.id });
        }
        b.emit_push_constants(pipeline.id, &pipeline.layout.push_constant_ranges, &constants);
        let ids = descriptor_set_ids(&sets);
        b.emit(Command::BindDescriptorSets { graphics: false, pipeline: pipeline.id, first_set: 0, sets: ids });
        b.emit(Command::Dispatch { dimensions });
        assert(b@.commands =~= start.commands + compute_bind_commands(start.cache, pipeline.id)
            + push_constant_commands(pipeline.id, pipeline.layout.push_constant_ranges@, constants@)
            + seq![
            CommandView::BindDescriptorSets {
                graphics: false,
                pipeline: pipeline.id,
                first_set: 0,
                sets: set_ids(sets@),
            },
            CommandView::Dispatch { dimensions },
        ]);
        Ok(b)
    }

    /// Appends the graphics state of a draw, consulting and updating the cache.
    fn record_graphics_state(
        &mut self,
        pipeline: &GraphicsPipeline,
        index: Option<(u64, IndexType)>,
        dynamic: DynamicState,
        sets: &Vec<DescriptorSet>,
        constants: &Vec<u8>,
        vertex_buffers: Vec<u64>,
    )
        requires
            push_constants_fit(pipeline.layout.push_constant_ranges@, constants@.len()),
        ensures
            ({
                let g = graphics_state(
                    old(self)@.cache,
                    *pipeline,
                    index,
                    dynamic@,
                    sets@,
                    constants@,
                    vertex_buffers@,
                );
                final(self)@ == (RecorderView { commands: old(self)@.commands + g.0, cache: g.1, ..old(self)@ })
            }),
    {
        let ghost start = self@;
        let ghost vb = vertex_buffers@;
        let ghost d = dynamic@;
        if let StateCacherOutcome::NeedChange = self.state_cacher.bind_graphics_pipeline(pipeline.id) {
            self.emit(Command::BindPipelineGraphics { pipeline: pipeline.id });
        }
        if let Some((buffer, ty)) = index {
            if let StateCacherOutcome::NeedChange = self.state_cacher.bind_index_buffer(buffer, ty) {
                self.emit(Command::BindIndexBuffer { buffer, index_type: ty });
            }
        }
        self.emit_push_constants(pipeline.id, &pipeline.layout.push_constant_ranges, constants);
        let filtered = self.state_cacher.dynamic_state(dynamic);
        self.emit_dynamic_state(filtered);
        let ids = descriptor_set_ids(sets);
        self.emit(
            Command::BindDescriptorSets { graphics: true, pipeline: pipeline.id, first_set: 0, sets: ids },
        );
        self.emit(Command::BindVertexBuffers { first_binding: 0, buffers: vertex_buffers });
        let ghost g = graphics_state(start.cache, *pipeline, index, d, sets@, constants@, vb);
        assert(self@.cache == g.1);
        assert(self@.commands =~= start.commands + g.0);
    }

    /// Draws the vertices of the given vertex buffers with a graphics
    /// pipeline, inside an inline subpass.
    pub fn draw(
        self,
        pipeline: GraphicsPipeline,
        dynamic: DynamicState,
        vertices: Vec<Buffer>,
        sets: Vec<DescriptorSet>,
        constants: Vec<u8>,
    ) -> (r: Result<AutoCommandBufferBuilder, DrawError>)
        ensures
            same_outcome(r, draw_outcome(self@, pipeline, dynamic@, vertices@, sets@, constants@)),
    {
        let mut b = self;
        if let Err(e) = b.ensure_inside_render_pass(false) {
            return Err(DrawError::AutoCommandBufferBuilderContextError(e));
        }
        if let Err(e) = check_dynamic_state_validity(&pipeline, &dynamic) {
            return Err(DrawError::CheckDynamicStateValidityError(e));
        }
        if let Err(e) = check_push_constants_validity(&pipeline.layout, &constants) {
            return Err(DrawError::CheckPushConstantsValidityError(e));
        }
        if let Err(e) = check_descriptor_sets_validity(&pipeline.layout, &sets) {
            return Err(DrawError::CheckDescriptorSetsValidityError(e));
        }
        let vb_infos = match check_vertex_buffers(&pipeline, &vertices) {
            Err(e) => {
                return Err(DrawError::CheckVertexBufferError(e));
            },
            Ok(infos) => infos,
        };
        let vertex_count = vb_infos.vertex_count;
        let instance_count = vb_infos.instance_count;
        b.record_graphics_state(&pipeline, None, dynamic, &sets, &constants, vb_infos.vertex_buffers);
        b.emit(Command::Draw { vertex_count, instance_count, first_vertex: 0, first_instance: 0 });
        Ok(b)
    }

    /// Draws the vertices that an index buffer selects, inside an inline
    /// subpass. The index buffer is bound only if it is not bound already
    /// with the same index type.
    pub fn draw_indexed(
        self,
        pipeline: GraphicsPipeline,
        dynamic: DynamicState,
        vertices: Vec<Buffer>,
        index_buffer: Buffer,
        index_type: IndexType,
        sets: Vec<DescriptorSet>,
        constants: Vec<u8>,
    ) -> (r: Result<AutoCommandBufferBuilder, DrawIndexedError>)
        ensures
            same_outcome(
                r,
                draw_indexed_outcome(
                    self@,
                    pipeline,
                    dynamic@,
                    vertices@,
                    index_buffer,
                    index_type,
                    sets@,
                    constants@,
                ),
            ),
    {
        let mut b = self;
        if let Err(e) = b.ensure_inside_render_pass(false) {
            return Err(DrawIndexedError::AutoCommandBufferBuilderContextError(e));
        }
        let ib_infos = match check_index_buffer(&index_buffer, index_type) {
            Err(e) => {
                return Err(DrawIndexedError::CheckIndexBufferError(e));
            },
            Ok(infos) => infos,
        };
        if let Err(e) = check_dynamic_state_validity(&pipeline, &dynamic) {
            return Err(DrawIndexedError::CheckDynamicStateValidityError(e));
        }
        if let Err(e) = check_push_constants_validity(&pipeline.layout, &constants) {
            return Err(DrawIndexedError::CheckPushConstantsValidityError(e));
        }
        if let Err(e) = check_descriptor_sets_validity(&pipeline.layout, &sets) {
            return Err(DrawIndexedError::CheckDescriptorSetsValidityError(e));
        }
        let vb_infos = match check_vertex_buffers(&pipeline, &vertices) {
            Err(e) => {
                return Err(DrawIndexedError::CheckVertexBufferError(e));
            },
            Ok(infos) => infos,
        };
        b.record_graphics_state(
            &pipeline,
            Some((index_buffer.id, index_type)),
            dynamic,
            &sets,
            &constants,
            vb_infos.vertex_buffers,
        );
        b.emit(
            Command::DrawIndexed {
                index_count: ib_infos.num_indices,
                instance_count: 1,
                first_index: 0,
                vertex_offset: 0,
                first_instance: 0,
            },
        );
        Ok(b)
    }

    /// Draws as many times as the indirect buffer holds draw records, inside
    /// an inline subpass.
    pub fn draw_indirect(
        self,
        pipeline: GraphicsPipeline,
        dynamic: DynamicState,
        vertices: Vec<Buffer>,
        indirect_buffer: Buffer,
        sets: Vec<DescriptorSet>,
        constants: Vec<u8>,
    ) -> (r: Result<AutoCommandBufferBuilder, DrawIndirectError>)
        ensures
            same_outcome(
                r,
                draw_indirect_outcome(
                    self@,
                    pipeline,
                    dynamic@,
                    vertices@,
                    indirect_buffer,
                    sets@,
                    constants@,
                ),
            ),
    {
        let mut b = self;
        if let Err(e) = b.ensure_inside_render_pass(false) {
            return Err(DrawIndirectError::AutoCommandBufferBuilderContextError(e));
        }
        if let Err(e) = check_dynamic_state_validity(&pipeline, &dynamic) {
            return Err(DrawIndirectError::CheckDynamicStateValidityError(e));
        }
        if let Err(e) = check_push_constants_validity(&pipeline.layout, &constants) {
            return Err(DrawIndirectError::CheckPushConstantsValidityError(e));
        }
        if let Err(e) = check_descriptor_sets_validity(&pipeline.layout, &sets) {
            return Err(DrawIndirectError::CheckDescriptorSetsValidityError(e));
        }
        let vb_infos = match check_vertex_buffers(&pipeline, &vertices) {
            Err(e) => {
                return Err(DrawIndirectError::CheckVertexBufferError(e));
            },
            Ok(infos) => infos,
        };
        let draw_count = indirect_buffer.size / INDIRECT_DRAW_STRIDE as u64;
        b.record_graphics_state(&pipeline, None, dynamic, &sets, &constants, vb_infos.vertex_buffers);
        b.emit(
            Command::DrawIndirect {
                buffer: indirect_buffer.id,
                draw_count,
                stride: INDIRECT_DRAW_STRIDE,
            },
        );
        Ok(b)
    }
}

} // verus!
