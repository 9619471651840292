use auto_command_buffer::resources::{
    Buffer, BufferUsage, DescriptorSet, DynamicState, GraphicsPipeline, IndexType, PipelineLayout,
    PushConstantRange, Scissor, VertexBinding, Viewport,
};
use auto_command_buffer::state_cache::{StateCacher, StateCacherOutcome};
use auto_command_buffer::validity::{
    check_descriptor_sets_validity, check_dynamic_state_validity, check_index_buffer,
    check_push_constants_validity, check_vertex_buffers, CheckDescriptorSetsValidityError,
    CheckDynamicStateValidityError, CheckVertexBufferError,
};

fn usage(vertex: bool) -> BufferUsage {
    BufferUsage {
        transfer_source: false,
        transfer_destination: false,
        vertex_buffer: vertex,
        index_buffer: true,
        indirect_buffer: false,
    }
}

fn buf(id: u64, size: u64) -> Buffer {
    Buffer { id, offset: 0, size, usage: usage(true) }
}

fn pipeline(line: bool, viewports: bool, scissors: bool, bindings: Vec<VertexBinding>) -> GraphicsPipeline {
    GraphicsPipeline {
        id: 1,
        layout: PipelineLayout { push_constant_ranges: vec![], set_layouts: vec![5, 6] },
        dynamic_line_width: line,
        dynamic_viewports: viewports,
        dynamic_scissors: scissors,
        num_viewports: 2,
        vertex_bindings: bindings,
    }
}

fn vp() -> Viewport {
    Viewport { origin_x: 0, origin_y: 0, width: 4, height: 4, depth_min: 0, depth_max: 1 }
}

fn sc() -> Scissor {
    Scissor { x: 0, y: 0, width: 4, height: 4 }
}

#[test]
fn dynamic_state_errors() {
    let none = DynamicState::none();
    let p = |l, v, s| pipeline(l, v, s, vec![]);
    assert_eq!(check_dynamic_state_validity(&p(false, false, false), &none), Ok(()));
    assert_eq!(
        check_dynamic_state_validity(&p(true, false, false), &none),
        Err(CheckDynamicStateValidityError::LineWidthMissing)
    );
    let with_line = DynamicState { line_width: Some(1), viewports: None, scissors: None };
    assert_eq!(
        check_dynamic_state_validity(&p(false, false, false), &with_line),
        Err(CheckDynamicStateValidityError::LineWidthNotDynamic)
    );
    assert_eq!(
        check_dynamic_state_validity(&p(false, true, false), &none),
        Err(CheckDynamicStateValidityError::ViewportsMissing)
    );
    let one_vp = DynamicState { line_width: None, viewports: Some(vec![vp()]), scissors: None };
    assert_eq!(
        check_dynamic_state_validity(&p(false, true, false), &one_vp),
        Err(CheckDynamicStateValidityError::ViewportCountMismatch { expected: 2, obtained: 1 })
    );
    assert_eq!(
        check_dynamic_state_validity(&p(false, false, false), &one_vp),
        Err(CheckDynamicStateValidityError::ViewportsNotDynamic)
    );
    assert_eq!(
        check_dynamic_state_validity(&p(false, false, true), &none),
        Err(CheckDynamicStateValidityError::ScissorsMissing)
    );
    let three_sc = DynamicState { line_width: None, viewports: None, scissors: Some(vec![sc(); 3]) };
    assert_eq!(
        check_dynamic_state_validity(&p(false, false, true), &three_sc),
        Err(CheckDynamicStateValidityError::ScissorCountMismatch { expected: 2, obtained: 3 })
    );
    assert_eq!(
        check_dynamic_state_validity(&p(false, false, false), &three_sc),
        Err(CheckDynamicStateValidityError::ScissorsNotDynamic)
    );
    let full = DynamicState { line_width: Some(1), viewports: Some(vec![vp(); 2]), scissors: Some(vec![sc(); 2]) };
    assert_eq!(check_dynamic_state_validity(&p(true, true, true), &full), Ok(()));
}

#[test]
fn vertex_buffer_errors() {
    let p = pipeline(false, false, false, vec![
        VertexBinding { stride: 4, per_instance: false },
        VertexBinding { stride: 0, per_instance: true },
    ]);
    assert_eq!(
        check_vertex_buffers(&p, &vec![buf(1, 8)]).err(),
        Some(CheckVertexBufferError::WrongNumberOfBuffers { expected: 2, obtained: 1 })
    );
    let no_usage = Buffer { id: 2, offset: 0, size: 8, usage: usage(false) };
    assert_eq!(
        check_vertex_buffers(&p, &vec![buf(1, 8), no_usage]).err(),
        Some(CheckVertexBufferError::BufferMissingUsage { num_buffer: 1 })
    );
    assert_eq!(
        check_vertex_buffers(&p, &vec![buf(1, 8), buf(2, 8)]).err(),
        Some(CheckVertexBufferError::ZeroStride { num_binding: 1 })
    );
}

#[test]
fn vertex_counts_without_bindings() {
    let p = pipeline(false, false, false, vec![]);
    let infos = check_vertex_buffers(&p, &vec![]).unwrap();
    assert_eq!(infos.vertex_count, 0);
    assert_eq!(infos.instance_count, 1);
    assert!(infos.vertex_buffers.is_empty());
}

#[test]
fn vertex_counts_take_the_least_per_rate() {
    let p = pipeline(false, false, false, vec![
        VertexBinding { stride: 4, per_instance: false },
        VertexBinding { stride: 2, per_instance: false },
        VertexBinding { stride: 10, per_instance: true },
    ]);
    let infos = check_vertex_buffers(&p, &vec![buf(1, 40), buf(2, 14), buf(3, 35)]).unwrap();
    assert_eq!(infos.vertex_count, 7);
    assert_eq!(infos.instance_count, 3);
    assert_eq!(infos.vertex_buffers, vec![1, 2, 3]);
}

#[test]
fn descriptor_sets_report_first_bad_set() {
    let layout = PipelineLayout { push_constant_ranges: vec![], set_layouts: vec![5, 6, 7] };
    let set = |layout| DescriptorSet { id: 9, layout };
    assert_eq!(check_descriptor_sets_validity(&layout, &vec![set(5), set(6), set(7), set(8)]), Ok(()));
    assert_eq!(
        check_descriptor_sets_validity(&layout, &vec![set(5), set(0), set(0)]),
        Err(CheckDescriptorSetsValidityError::IncompatibleDescriptorSet { set_num: 1 })
    );
    assert_eq!(
        check_descriptor_sets_validity(&layout, &vec![set(5), set(6)]),
        Err(CheckDescriptorSetsValidityError::MissingDescriptorSet { set_num: 2 })
    );
}

#[test]
fn push_constant_ranges_must_fit() {
    let layout = PipelineLayout {
        push_constant_ranges: vec![
            PushConstantRange { offset: 0, size: 4, stages: 1 },
            PushConstantRange { offset: 8, size: 8, stages: 2 },
        ],
        set_layouts: vec![],
    };
    assert!(check_push_constants_validity(&layout, &vec![0; 16]).is_ok());
    assert!(check_push_constants_validity(&layout, &vec![0; 15]).is_err());
}

#[test]
fn index_buffer_counts_indices() {
    assert_eq!(check_index_buffer(&buf(1, 10), IndexType::U16).unwrap().num_indices, 5);
    assert_eq!(check_index_buffer(&buf(1, 10), IndexType::U32).unwrap().num_indices, 2);
}

#[test]
fn cacher_reports_changes_only() {
    let mut c = StateCacher::new();
    assert_eq!(c.bind_graphics_pipeline(3), StateCacherOutcome::NeedChange);
    assert_eq!(c.bind_graphics_pipeline(3), StateCacherOutcome::AlreadyOk);
    assert_eq!(c.bind_compute_pipeline(3), StateCacherOutcome::NeedChange);
    assert_eq!(c.bind_compute_pipeline(4), StateCacherOutcome::NeedChange);
    assert_eq!(c.bind_index_buffer(7, IndexType::U16), StateCacherOutcome::NeedChange);
    assert_eq!(c.bind_index_buffer(7, IndexType::U16), StateCacherOutcome::AlreadyOk);
    assert_eq!(c.bind_index_buffer(7, IndexType::U32), StateCacherOutcome::NeedChange);
    c.invalidate();
    assert_eq!(c.bind_graphics_pipeline(3), StateCacherOutcome::NeedChange);
}

#[test]
fn cacher_filters_dynamic_state() {
    let mut c = StateCacher::new();
    let d = || DynamicState { line_width: Some(2), viewports: Some(vec![vp()]), scissors: None };
    let first = c.dynamic_state(d());
    assert_eq!(first.line_width, Some(2));
    assert_eq!(first.viewports, Some(vec![vp()]));
    let second = c.dynamic_state(d());
    assert_eq!(second.line_width, None);
    assert_eq!(second.viewports, None);
    let absent = c.dynamic_state(DynamicState::none());
    assert_eq!(absent.line_width, None);
    let third = c.dynamic_state(d());
    assert_eq!(third.line_width, None);
    let changed = c.dynamic_state(DynamicState { line_width: Some(3), viewports: None, scissors: Some(vec![sc()]) });
    assert_eq!(changed.line_width, Some(3));
    assert_eq!(changed.scissors, Some(vec![sc()]));
}
