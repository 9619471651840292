//! Facts about sequences of recorder operations.
use vstd::prelude::*;
use crate::command::{count_compute_binds, lemma_count_compute_binds_append, CommandView};
use crate::error::{AutoCommandBufferBuilderContextError, BeginRenderPassError, BuildError, DrawError};
use crate::model::{
    begin_render_pass_outcome, build_outcome, compute_bind_commands, dispatch_outcome,
    draw_outcome, end_render_pass_outcome, next_subpass_outcome, push_constant_commands, set_ids,
    RecorderView,
};
use crate::resources::{
    Buffer, ClearValue, ComputePipeline, DescriptorSet, DynamicStateView, Framebuffer,
    GraphicsPipeline,
};
use crate::validity::{
    copy_buffer_check, descriptor_sets_check, dynamic_state_check, min_u64, push_constants_fit,
    vertex_buffers_check,
};

verus! {

/// The outcome of `n` successive `next_subpass` calls.
pub open spec fn next_subpasses(v: RecorderView, n: nat, secondary: bool) -> Result<
    RecorderView,
    AutoCommandBufferBuilderContextError,
>
    decreases n,
{
    if n == 0 {
        Ok(v)
    } else {
        match next_subpasses(v, (n - 1) as nat, secondary) {
            Ok(u) => next_subpass_outcome(u, secondary),
            Err(e) => Err(e),
        }
    }
}

proof fn lemma_next_subpasses(v: RecorderView, n: nat, secondary: bool)
    requires
        !v.secondary,
        v.subpasses_remaining is Some,
    ensures
        n <= v.subpasses_remaining.unwrap() ==> (next_subpasses(v, n, secondary) matches Ok(u)
            && !u.secondary && u.subpasses_remaining == Some(
            (v.subpasses_remaining.unwrap() - n) as u32,
        )),
        n > v.subpasses_remaining.unwrap() ==> next_subpasses(v, n, secondary) == Err::<
            RecorderView,
            _,
        >(AutoCommandBufferBuilderContextError::NumSubpassesMismatch),
    decreases n,
{
    if n > 0 {
        lemma_next_subpasses(v, (n - 1) as nat, secondary);
    }
}

/// A render pass of `k` subpasses ends after exactly `k - 1` moves to the
/// next subpass: ending it after fewer fails with `NumSubpassesMismatch`,
/// and so does the `k`-th move and every one after it.
pub proof fn render_pass_needs_one_move_per_further_subpass(
    v: RecorderView,
    framebuffer: Framebuffer,
    secondary: bool,
    clear_values: Seq<ClearValue>,
    moves: nat,
)
    requires
        !v.secondary,
        v.subpasses_remaining is None,
        framebuffer.num_subpasses > 0,
    ensures
        begin_render_pass_outcome(v, framebuffer, secondary, clear_values) matches Ok(w) && {
            let k = framebuffer.num_subpasses as nat;
            &&& moves < k ==> (next_subpasses(w, moves, secondary) matches Ok(u) && (
            end_render_pass_outcome(u) is Ok <==> moves == k - 1) && (moves < k - 1
                ==> end_render_pass_outcome(u) == Err::<RecorderView, _>(
                AutoCommandBufferBuilderContextError::NumSubpassesMismatch,
            )))
            &&& moves >= k ==> next_subpasses(w, moves, secondary) == Err::<RecorderView, _>(
                AutoCommandBufferBuilderContextError::NumSubpassesMismatch,
            )
        },
{
    let w = begin_render_pass_outcome(v, framebuffer, secondary, clear_values).unwrap();
    lemma_next_subpasses(w, moves, secondary);
}

/// Ending a render pass in a primary recorder that is outside any render
/// pass fails with `ForbiddenOutsideRenderPass`.
pub proof fn end_outside_render_pass_fails(v: RecorderView)
    requires
        !v.secondary,
        v.subpasses_remaining is None,
    ensures
        end_render_pass_outcome(v) == Err::<RecorderView, _>(
            AutoCommandBufferBuilderContextError::ForbiddenOutsideRenderPass,
        ),
{
}

/// Right after a render pass is entered with inline contents, a draw whose
/// inputs fit its pipeline succeeds; right after one is entered for
/// secondary command buffers, every draw fails with `WrongSubpassType`.
pub proof fn draw_follows_first_subpass_kind(
    v: RecorderView,
    framebuffer: Framebuffer,
    clear_values: Seq<ClearValue>,
    pipeline: GraphicsPipeline,
    dynamic: DynamicStateView,
    vertices: Seq<Buffer>,
    sets: Seq<DescriptorSet>,
    constants: Seq<u8>,
)
    requires
        !v.secondary,
        v.subpasses_remaining is None,
        framebuffer.num_subpasses > 0,
    ensures
        (dynamic_state_check(pipeline, dynamic) is Ok && push_constants_fit(
            pipeline.layout.push_constant_ranges@,
            constants.len(),
        ) && descriptor_sets_check(pipeline.layout, sets) is Ok && vertex_buffers_check(
            pipeline,
            vertices,
        ) is Ok) ==> draw_outcome(
            begin_render_pass_outcome(v, framebuffer, false, clear_values).unwrap(),
            pipeline,
            dynamic,
            vertices,
            sets,
            constants,
        ) is Ok,
        draw_outcome(
            begin_render_pass_outcome(v, framebuffer, true, clear_values).unwrap(),
            pipeline,
            dynamic,
            vertices,
            sets,
            constants,
        ) == Err::<RecorderView, _>(
            DrawError::AutoCommandBufferBuilderContextError(
                AutoCommandBufferBuilderContextError::WrongSubpassType,
            ),
        ),
{
}

proof fn lemma_no_compute_binds(s: Seq<CommandView>)
    requires
        forall|i: int| 0 <= i < s.len() ==> !(#[trigger] s[i] is BindPipelineCompute),
    ensures
        count_compute_binds(s) == 0,
    decreases s.len(),
{
    if s.len() > 0 {
        assert(!(s[s.len() - 1] is BindPipelineCompute));
        lemma_no_compute_binds(s.drop_last());
    }
}

/// The compute-pipeline binds that one dispatch emits: one exactly when its
/// pipeline was not the one bound before.
proof fn lemma_dispatch_binds(
    v: RecorderView,
    dimensions: [u32; 3],
    pipeline: ComputePipeline,
    sets: Seq<DescriptorSet>,
    constants: Seq<u8>,
)
    requires
        dispatch_outcome(v, dimensions, pipeline, sets, constants) is Ok,
    ensures
        ({
            let w = dispatch_outcome(v, dimensions, pipeline, sets, constants).unwrap();
            &&& count_compute_binds(w.commands) == count_compute_binds(v.commands) + if v.cache.compute_pipeline
                == Some(pipeline.id) {
                0nat
            } else {
                1nat
            }
            &&& w.cache.compute_pipeline == Some(pipeline.id)
        }),
{
    let bind = compute_bind_commands(v.cache, pipeline.id);
    let push = push_constant_commands(pipeline.id, pipeline.layout.push_constant_ranges@, constants);
    let tail = seq![
        CommandView::BindDescriptorSets {
            graphics: false,
            pipeline: pipeline.id,
            first_set: 0,
            sets: set_ids(sets),
        },
        CommandView::Dispatch { dimensions },
    ];
    lemma_no_compute_binds(push);
    lemma_no_compute_binds(tail);
    lemma_count_compute_binds_append(v.commands, bind);
    lemma_count_compute_binds_append(v.commands + bind, push);
    lemma_count_compute_binds_append(v.commands + bind + push, tail);
    if v.cache.compute_pipeline != Some(pipeline.id) {
        assert(bind.drop_last() =~= Seq::<CommandView>::empty());
        assert(count_compute_binds(bind.drop_last()) == 0);
        assert(count_compute_binds(bind) == 1);
    } else {
        assert(count_compute_binds(bind) == 0);
    }
    assert(count_compute_binds(push) == 0);
    assert(count_compute_binds(tail) == 0);
}

/// Two successive dispatches emit one compute-pipeline bind for the first
/// when its pipeline was not already bound, and one more for the second only
/// when its pipeline differs from the first's.
pub proof fn successive_dispatches_bind_changed_pipelines_only(
    v: RecorderView,
    first_dimensions: [u32; 3],
    first_pipeline: ComputePipeline,
    first_sets: Seq<DescriptorSet>,
    first_constants: Seq<u8>,
    second_dimensions: [u32; 3],
    second_pipeline: ComputePipeline,
    second_sets: Seq<DescriptorSet>,
    second_constants: Seq<u8>,
)
    requires
        dispatch_outcome(v, first_dimensions, first_pipeline, first_sets, first_constants) matches Ok(
            w,
        ) && dispatch_outcome(w, second_dimensions, second_pipeline, second_sets, second_constants) is Ok,
    ensures
        ({
            let w = dispatch_outcome(
                v,
                first_dimensions,
                first_pipeline,
                first_sets,
                first_constants,
            ).unwrap();
            let x = dispatch_outcome(
                w,
                second_dimensions,
                second_pipeline,
                second_sets,
                second_constants,
            ).unwrap();
            count_compute_binds(x.commands) == count_compute_binds(v.commands) + (if v.cache.compute_pipeline
                == Some(first_pipeline.id) {
                0nat
            } else {
                1nat
            }) + (if second_pipeline.id == first_pipeline.id {
                0nat
            } else {
                1nat
            })
        }),
{
    let w = dispatch_outcome(v, first_dimensions, first_pipeline, first_sets, first_constants).unwrap();
    lemma_dispatch_binds(v, first_dimensions, first_pipeline, first_sets, first_constants);
    lemma_dispatch_binds(w, second_dimensions, second_pipeline, second_sets, second_constants);
}

/// A buffer copy covers the shorter of the two buffers, whichever of them is
/// the source.
pub proof fn copy_length_is_shorter_size(a: Buffer, b: Buffer)
    requires
        copy_buffer_check(a, b) is Ok,
    ensures
        copy_buffer_check(a, b).unwrap().copy_size == min_u64(a.size, b.size),
        copy_buffer_check(b, a) is Ok ==> copy_buffer_check(b, a).unwrap().copy_size
            == copy_buffer_check(a, b).unwrap().copy_size,
{
}

/// A secondary recorder refuses to enter, advance or end a render pass, and
/// to be built, whatever its state.
pub proof fn secondary_recorder_refuses_render_pass_control(
    v: RecorderView,
    framebuffer: Framebuffer,
    secondary: bool,
    clear_values: Seq<ClearValue>,
)
    requires
        v.secondary,
    ensures
        begin_render_pass_outcome(v, framebuffer, secondary, clear_values) == Err::<RecorderView, _>(
            BeginRenderPassError::AutoCommandBufferBuilderContextError(
                AutoCommandBufferBuilderContextError::ForbiddenInSecondary,
            ),
        ),
        next_subpass_outcome(v, secondary) == Err::<RecorderView, _>(
            AutoCommandBufferBuilderContextError::ForbiddenInSecondary,
        ),
        end_render_pass_outcome(v) == Err::<RecorderView, _>(
            AutoCommandBufferBuilderContextError::ForbiddenInSecondary,
        ),
        build_outcome(v) == Err::<Seq<CommandView>, _>(
            BuildError::AutoCommandBufferBuilderContextError(
                AutoCommandBufferBuilderContextError::ForbiddenInSecondary,
            ),
        ),
{
}

} // verus!
