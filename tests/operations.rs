use auto_command_buffer::command::Command;
use auto_command_buffer::error::{
    AutoCommandBufferBuilderContextError, ClearColorImageError, CopyBufferError,
    CopyBufferToImageError, DispatchError, DrawIndexedError, DrawIndirectError, FillBufferError,
    UpdateBufferError,
};
use auto_command_buffer::resources::{
    Buffer, BufferUsage, ClearValue, ComputePipeline, DescriptorSet, Device, DynamicState,
    Framebuffer, GraphicsPipeline, Image, IndexType, PipelineLayout, PushConstantRange, Scissor,
    VertexBinding, Viewport,
};
use auto_command_buffer::validity::{
    CheckClearColorImageError, CheckCopyBufferError, CheckDescriptorSetsValidityError,
    CheckDispatchError, CheckFillBufferError, CheckIndexBufferError,
    CheckPushConstantsValidityError, CheckUpdateBufferError,
};
use auto_command_buffer::AutoCommandBufferBuilder;

fn device() -> Device {
    Device { id: 1, max_compute_work_group_count: [64, 32, 16] }
}

fn primary() -> AutoCommandBufferBuilder {
    AutoCommandBufferBuilder::new(device(), 0).unwrap()
}

fn usage_all() -> BufferUsage {
    BufferUsage {
        transfer_source: true,
        transfer_destination: true,
        vertex_buffer: true,
        index_buffer: true,
        indirect_buffer: true,
    }
}

fn usage_none() -> BufferUsage {
    BufferUsage {
        transfer_source: false,
        transfer_destination: false,
        vertex_buffer: false,
        index_buffer: false,
        indirect_buffer: false,
    }
}

fn buffer(id: u64, size: u64) -> Buffer {
    Buffer { id, offset: 0, size, usage: usage_all() }
}

fn image(has_color: bool) -> Image {
    Image {
        id: 9,
        width: 16,
        height: 8,
        depth: 1,
        array_layers: 4,
        mipmap_levels: 3,
        has_color,
        transfer_destination: true,
    }
}

fn compute(id: u64) -> ComputePipeline {
    ComputePipeline {
        id,
        layout: PipelineLayout {
            push_constant_ranges: vec![PushConstantRange { offset: 4, size: 4, stages: 32 }],
            set_layouts: vec![100],
        },
    }
}

fn graphics(id: u64) -> GraphicsPipeline {
    GraphicsPipeline {
        id,
        layout: PipelineLayout { push_constant_ranges: vec![], set_layouts: vec![] },
        dynamic_line_width: true,
        dynamic_viewports: true,
        dynamic_scissors: false,
        num_viewports: 1,
        vertex_bindings: vec![
            VertexBinding { stride: 16, per_instance: false },
            VertexBinding { stride: 8, per_instance: true },
            VertexBinding { stride: 4, per_instance: false },
        ],
    }
}

fn viewport(width: u32) -> Viewport {
    Viewport { origin_x: 0, origin_y: 0, width, height: 1, depth_min: 0, depth_max: 1 }
}

fn dynamic(line_width: u32, width: u32) -> DynamicState {
    DynamicState { line_width: Some(line_width), viewports: Some(vec![viewport(width)]), scissors: None }
}

fn vertices() -> Vec<Buffer> {
    vec![buffer(51, 160), buffer(52, 24), buffer(53, 32)]
}

fn in_render_pass() -> AutoCommandBufferBuilder {
    primary().begin_render_pass(Framebuffer { id: 3, num_subpasses: 1 }, false, vec![]).unwrap()
}

fn dispatch(b: AutoCommandBufferBuilder, pipeline: u64) -> AutoCommandBufferBuilder {
    b.dispatch([1, 1, 1], compute(pipeline), vec![DescriptorSet { id: 200, layout: 100 }], vec![0, 1, 2, 3, 4, 5, 6, 7])
        .unwrap()
}

fn count_compute_binds(cmds: &[Command]) -> usize {
    cmds.iter().filter(|c| matches!(c, Command::BindPipelineCompute { .. })).count()
}

#[test]
fn same_compute_pipeline_is_bound_once() {
    let b = dispatch(dispatch(primary(), 10), 10);
    let cb = b.build().unwrap();
    assert_eq!(count_compute_binds(cb.commands()), 1);
}

#[test]
fn changed_compute_pipeline_is_bound_again() {
    let b = dispatch(dispatch(dispatch(primary(), 10), 11), 11);
    let cb = b.build().unwrap();
    assert_eq!(count_compute_binds(cb.commands()), 2);
}

#[test]
fn dispatch_emits_bind_push_constants_sets_and_dispatch() {
    let cb = dispatch(primary(), 10).build().unwrap();
    assert_eq!(
        cb.commands().clone(),
        vec![
            Command::BindPipelineCompute { pipeline: 10 },
            Command::PushConstants { pipeline: 10, stages: 32, offset: 4, size: 4, data: vec![4, 5, 6, 7] },
            Command::BindDescriptorSets { graphics: false, pipeline: 10, first_set: 0, sets: vec![200] },
            Command::Dispatch { dimensions: [1, 1, 1] },
        ]
    );
}

#[test]
fn dispatch_errors() {
    match in_render_pass().dispatch([1, 1, 1], compute(1), vec![DescriptorSet { id: 2, layout: 100 }], vec![0; 8]) {
        Err(DispatchError::AutoCommandBufferBuilderContextError(e)) => {
            assert_eq!(e, AutoCommandBufferBuilderContextError::ForbiddenInsideRenderPass)
        },
        _ => panic!("expected ForbiddenInsideRenderPass"),
    }
    match primary().dispatch([1, 1, 1], compute(1), vec![DescriptorSet { id: 2, layout: 100 }], vec![0; 7]) {
        Err(DispatchError::CheckPushConstantsValidityError(e)) => {
            assert_eq!(e, CheckPushConstantsValidityError::IncompatiblePushConstants)
        },
        _ => panic!("expected IncompatiblePushConstants"),
    }
    match primary().dispatch([1, 1, 1], compute(1), vec![], vec![0; 8]) {
        Err(DispatchError::CheckDescriptorSetsValidityError(e)) => {
            assert_eq!(e, CheckDescriptorSetsValidityError::MissingDescriptorSet { set_num: 0 })
        },
        _ => panic!("expected MissingDescriptorSet"),
    }
    match primary().dispatch([1, 1, 1], compute(1), vec![DescriptorSet { id: 2, layout: 101 }], vec![0; 8]) {
        Err(DispatchError::CheckDescriptorSetsValidityError(e)) => {
            assert_eq!(e, CheckDescriptorSetsValidityError::IncompatibleDescriptorSet { set_num: 0 })
        },
        _ => panic!("expected IncompatibleDescriptorSet"),
    }
    match primary().dispatch([1, 33, 1], compute(1), vec![DescriptorSet { id: 2, layout: 100 }], vec![0; 8]) {
        Err(DispatchError::CheckDispatchError(e)) => assert_eq!(
            e,
            CheckDispatchError::UnsupportedDimensions { requested: [1, 33, 1], max_supported: [64, 32, 16] }
        ),
        _ => panic!("expected UnsupportedDimensions"),
    }
    assert!(primary().dispatch([64, 32, 16], compute(1), vec![DescriptorSet { id: 2, layout: 100 }], vec![0; 8]).is_ok());
}

fn copied_size(source: Buffer, destination: Buffer) -> u64 {
    let cb = primary().copy_buffer(source, destination).unwrap().build().unwrap();
    match &cb.commands()[0] {
        Command::CopyBuffer { size, source_offset: 0, destination_offset: 0, .. } => *size,
        _ => panic!("expected a copy"),
    }
}

#[test]
fn copy_covers_the_shorter_buffer() {
    assert_eq!(copied_size(buffer(1, 100), buffer(2, 64)), 64);
    assert_eq!(copied_size(buffer(1, 64), buffer(2, 100)), 64);
    assert_eq!(copied_size(buffer(1, 0), buffer(2, 100)), 0);
}

#[test]
fn copy_buffer_errors() {
    let no_src = Buffer { id: 1, offset: 0, size: 8, usage: usage_none() };
    match primary().copy_buffer(no_src, buffer(2, 8)) {
        Err(CopyBufferError::CheckCopyBufferError(e)) => {
            assert_eq!(e, CheckCopyBufferError::SourceMissingTransferUsage)
        },
        _ => panic!("expected SourceMissingTransferUsage"),
    }
    match primary().copy_buffer(buffer(1, 8), no_src) {
        Err(CopyBufferError::CheckCopyBufferError(e)) => {
            assert_eq!(e, CheckCopyBufferError::DestinationMissingTransferUsage)
        },
        _ => panic!("expected DestinationMissingTransferUsage"),
    }
    match primary().copy_buffer(buffer(1, 8), buffer(1, 8)) {
        Err(CopyBufferError::CheckCopyBufferError(e)) => assert_eq!(e, CheckCopyBufferError::OverlappingRanges),
        _ => panic!("expected OverlappingRanges"),
    }
    match in_render_pass().copy_buffer(buffer(1, 8), buffer(2, 8)) {
        Err(CopyBufferError::AutoCommandBufferBuilderContextError(e)) => {
            assert_eq!(e, AutoCommandBufferBuilderContextError::ForbiddenInsideRenderPass)
        },
        _ => panic!("expected ForbiddenInsideRenderPass"),
    }
}

#[test]
fn clear_whole_image() {
    let color = ClearValue::Uint([1, 2, 3, 4]);
    let cb = primary().clear_color_image(image(true), color).unwrap().build().unwrap();
    assert_eq!(
        cb.commands()[0],
        Command::ClearColorImage {
            image: 9,
            color,
            base_mip_level: 0,
            level_count: 3,
            base_array_layer: 0,
            layer_count: 4,
        }
    );
}

#[test]
fn clear_ranges_are_checked() {
    let color = ClearValue::Int([0, 0, 0, 0]);
    assert!(primary().clear_color_image_dimensions(image(true), 1, 3, 2, 1, color).is_ok());
    match primary().clear_color_image_dimensions(image(true), 1, 4, 0, 1, color) {
        Err(ClearColorImageError::CheckClearColorImageError(e)) => {
            assert_eq!(e, CheckClearColorImageError::ImageLayersOutOfRange)
        },
        _ => panic!("expected ImageLayersOutOfRange"),
    }
    match primary().clear_color_image_dimensions(image(true), 0, 1, 3, 1, color) {
        Err(ClearColorImageError::CheckClearColorImageError(e)) => {
            assert_eq!(e, CheckClearColorImageError::MipmapsOutOfRange)
        },
        _ => panic!("expected MipmapsOutOfRange"),
    }
    let mut no_transfer = image(true);
    no_transfer.transfer_destination = false;
    match primary().clear_color_image(no_transfer, color) {
        Err(ClearColorImageError::CheckClearColorImageError(e)) => {
            assert_eq!(e, CheckClearColorImageError::MissingTransferUsage)
        },
        _ => panic!("expected MissingTransferUsage"),
    }
    match in_render_pass().clear_color_image(image(true), color) {
        Err(ClearColorImageError::AutoCommandBufferBuilderContextError(e)) => {
            assert_eq!(e, AutoCommandBufferBuilderContextError::ForbiddenInsideRenderPass)
        },
        _ => panic!("expected ForbiddenInsideRenderPass"),
    }
}

#[test]
fn copy_buffer_to_color_image() {
    let cb = primary().copy_buffer_to_image(buffer(1, 512), image(true)).unwrap().build().unwrap();
    assert_eq!(
        cb.commands()[0],
        Command::CopyBufferToImage {
            source: 1,
            destination: 9,
            buffer_offset: 0,
            image_mip_level: 0,
            image_base_array_layer: 0,
            image_layer_count: 1,
            image_offset: [0, 0, 0],
            image_extent: [16, 8, 1],
        }
    );
}

#[test]
fn copy_buffer_to_image_without_color_is_unsupported() {
    assert!(matches!(
        primary().copy_buffer_to_image(buffer(1, 512), image(false)),
        Err(CopyBufferToImageError::UnsupportedAspect)
    ));
    assert!(matches!(
        in_render_pass().copy_buffer_to_image_dimensions(buffer(1, 512), image(true), [1, 2, 0], [2, 2, 1], 1, 1, 1),
        Err(CopyBufferToImageError::AutoCommandBufferBuilderContextError(
            AutoCommandBufferBuilderContextError::ForbiddenInsideRenderPass
        ))
    ));
}

#[test]
fn fill_buffer_records_word() {
    let cb = primary().fill_buffer(buffer(4, 64), 0xdead_beef).unwrap().build().unwrap();
    assert_eq!(cb.commands()[0], Command::FillBuffer { buffer: 4, data: 0xdead_beef });
    let misaligned = Buffer { id: 4, offset: 2, size: 64, usage: usage_all() };
    assert!(matches!(
        primary().fill_buffer(misaligned, 0),
        Err(FillBufferError::CheckFillBufferError(CheckFillBufferError::WrongAlignment))
    ));
    let no_usage = Buffer { id: 4, offset: 0, size: 64, usage: usage_none() };
    assert!(matches!(
        primary().fill_buffer(no_usage, 0),
        Err(FillBufferError::CheckFillBufferError(CheckFillBufferError::BufferMissingUsage))
    ));
}

#[test]
fn update_buffer_needs_a_larger_buffer() {
    let cb = primary().update_buffer(buffer(4, 16), vec![1, 2, 3, 4]).unwrap().build().unwrap();
    assert_eq!(cb.commands()[0], Command::UpdateBuffer { buffer: 4, data: vec![1, 2, 3, 4] });
    assert!(matches!(primary().update_buffer(buffer(4, 4), vec![1, 2, 3, 4]), Err(UpdateBufferError::UnsupportedSize)));
    assert!(matches!(
        primary().update_buffer(buffer(4, 16), vec![1, 2, 3]),
        Err(UpdateBufferError::CheckUpdateBufferError(CheckUpdateBufferError::WrongAlignment))
    ));
    assert!(matches!(
        primary().update_buffer(buffer(4, 100_000), vec![0; 65540]),
        Err(UpdateBufferError::CheckUpdateBufferError(CheckUpdateBufferError::DataTooLarge))
    ));
    let no_usage = Buffer { id: 4, offset: 0, size: 64, usage: usage_none() };
    assert!(matches!(
        primary().update_buffer(no_usage, vec![0; 4]),
        Err(UpdateBufferError::CheckUpdateBufferError(CheckUpdateBufferError::BufferMissingUsage))
    ));
    assert!(matches!(
        in_render_pass().update_buffer(buffer(4, 16), vec![0; 4]),
        Err(UpdateBufferError::AutoCommandBufferBuilderContextError(_))
    ));
}

#[test]
fn draws_skip_unchanged_state() {
    let b = in_render_pass();
    let b = b.draw(graphics(70), dynamic(1, 5), vertices(), vec![], vec![]).unwrap();
    let b = b.draw(graphics(70), dynamic(1, 5), vertices(), vec![], vec![]).unwrap();
    let b = b.draw(graphics(70), dynamic(2, 5), vertices(), vec![], vec![]).unwrap();
    let cb = b.end_render_pass().unwrap().build().unwrap();
    let binds = |c: &Command| matches!(c, Command::BindPipelineGraphics { .. });
    assert_eq!(cb.commands().iter().filter(|c| binds(c)).count(), 1);
    let widths: Vec<u32> = cb
        .commands()
        .iter()
        .filter_map(|c| match c {
            Command::SetLineWidth { line_width } => Some(*line_width),
            _ => None,
        })
        .collect();
    assert_eq!(widths, vec![1, 2]);
    let viewports = cb.commands().iter().filter(|c| matches!(c, Command::SetViewport { .. })).count();
    assert_eq!(viewports, 1);
    let vertex_binds = cb.commands().iter().filter(|c| matches!(c, Command::BindVertexBuffers { .. })).count();
    assert_eq!(vertex_binds, 3);
}

#[test]
fn draw_counts_come_from_the_vertex_buffers() {
    let b = in_render_pass().draw(graphics(70), dynamic(1, 5), vertices(), vec![], vec![]).unwrap();
    let cb = b.end_render_pass().unwrap().build().unwrap();
    let n = cb.commands().len();
    assert_eq!(
        cb.commands()[n - 2],
        Command::Draw { vertex_count: 8, instance_count: 3, first_vertex: 0, first_instance: 0 }
    );
    assert_eq!(cb.commands()[n - 3], Command::BindVertexBuffers { first_binding: 0, buffers: vec![51, 52, 53] });
}

#[test]
fn draw_indexed_binds_index_buffer_once() {
    let b = in_render_pass();
    let b = b.draw_indexed(graphics(70), dynamic(1, 5), vertices(), buffer(60, 12), IndexType::U16, vec![], vec![]).unwrap();
    let b = b.draw_indexed(graphics(70), dynamic(1, 5), vertices(), buffer(60, 12), IndexType::U16, vec![], vec![]).unwrap();
    let b = b.draw_indexed(graphics(70), dynamic(1, 5), vertices(), buffer(60, 12), IndexType::U32, vec![], vec![]).unwrap();
    let cb = b.end_render_pass().unwrap().build().unwrap();
    let ib: Vec<IndexType> = cb
        .commands()
        .iter()
        .filter_map(|c| match c {
            Command::BindIndexBuffer { index_type, .. } => Some(*index_type),
            _ => None,
        })
        .collect();
    assert_eq!(ib, vec![IndexType::U16, IndexType::U32]);
    let counts: Vec<u64> = cb
        .commands()
        .iter()
        .filter_map(|c| match c {
            Command::DrawIndexed { index_count, .. } => Some(*index_count),
            _ => None,
        })
        .collect();
    assert_eq!(counts, vec![6, 6, 3]);
}

#[test]
fn draw_indexed_needs_index_usage() {
    let bad = Buffer { id: 60, offset: 0, size: 12, usage: usage_none() };
    match in_render_pass().draw_indexed(graphics(70), dynamic(1, 5), vertices(), bad, IndexType::U16, vec![], vec![]) {
        Err(DrawIndexedError::CheckIndexBufferError(e)) => assert_eq!(e, CheckIndexBufferError::BufferMissingUsage),
        _ => panic!("expected BufferMissingUsage"),
    }
}

#[test]
fn draw_indirect_counts_records() {
    let b = in_render_pass().draw_indirect(graphics(70), dynamic(1, 5), vertices(), buffer(61, 40), vec![], vec![]).unwrap();
    let cb = b.end_render_pass().unwrap().build().unwrap();
    let n = cb.commands().len();
    assert_eq!(cb.commands()[n - 2], Command::DrawIndirect { buffer: 61, draw_count: 2, stride: 16 });
    assert!(matches!(
        primary().draw_indirect(graphics(70), dynamic(1, 5), vertices(), buffer(61, 40), vec![], vec![]),
        Err(DrawIndirectError::AutoCommandBufferBuilderContextError(
            AutoCommandBufferBuilderContextError::ForbiddenOutsideRenderPass
        ))
    ));
}

#[test]
fn dynamic_scissors_must_match_viewport_count() {
    let mut p = graphics(70);
    p.dynamic_scissors = true;
    let d = DynamicState {
        line_width: Some(1),
        viewports: Some(vec![viewport(1)]),
        scissors: Some(vec![Scissor { x: 0, y: 0, width: 1, height: 1 }; 2]),
    };
    assert!(in_render_pass().draw(p, d, vertices(), vec![], vec![]).is_err());
}
