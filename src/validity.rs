//! Per-operation checks. Each returns the parameters that the command needs,
//! resolved, or the first rule that the operation breaks.
use vstd::prelude::*;
use crate::resources::{
    Buffer, DescriptorSet, Device, DynamicState, DynamicStateView, GraphicsPipeline, Image,
    IndexType, PipelineLayout, PushConstantRange, VertexBinding,
};

verus! {

/// Largest payload of an inline buffer update, in bytes.
pub const MAX_UPDATE_SIZE: u64 = 65536;

/// Why an image cannot be cleared.
#[derive(Debug, Copy, Clone, PartialEq, Eq, Structural)]
pub enum CheckClearColorImageError {
    /// The image was not created for use as a transfer destination.
    MissingTransferUsage,
    /// The array layers are out of range.
    ImageLayersOutOfRange,
    /// The mipmap levels are out of range.
    MipmapsOutOfRange,
}

/// The first rule that clearing the given range of `image` breaks, if any.
pub open spec fn clear_color_image_check(
    image: Image,
    first_layer: u32,
    num_layers: u32,
    first_mipmap: u32,
    num_mipmaps: u32,
) -> Result<(), CheckClearColorImageError> {
    if !image.transfer_destination {
        Err(CheckClearColorImageError::MissingTransferUsage)
    } else if first_layer + num_layers > image.array_layers {
        Err(CheckClearColorImageError::ImageLayersOutOfRange)
    } else if first_mipmap + num_mipmaps > image.mipmap_levels {
        Err(CheckClearColorImageError::MipmapsOutOfRange)
    } else {
        Ok(())
    }
}

/// Checks that a range of layers and mipmap levels of `image` can be cleared.
pub fn check_clear_color_image(
    image: &Image,
    first_layer: u32,
    num_layers: u32,
    first_mipmap: u32,
    num_mipmaps: u32,
) -> (r: Result<(), CheckClearColorImageError>)
    ensures
        r == clear_color_image_check(*image, first_layer, num_layers, first_mipmap, num_mipmaps),
{
    if !image.transfer_destination {
        Err(CheckClearColorImageError::MissingTransferUsage)
    } else if first_layer as u64 + num_layers as u64 > image.array_layers as u64 {
        Err(CheckClearColorImageError::ImageLayersOutOfRange)
    } else if first_mipmap as u64 + num_mipmaps as u64 > image.mipmap_levels as u64 {
        Err(CheckClearColorImageError::MipmapsOutOfRange)
    } else {
        Ok(())
    }
}

/// Why a buffer cannot be copied to another.
#[derive(Debug, Copy, Clone, PartialEq, Eq, Structural)]
pub enum CheckCopyBufferError {
    /// The source buffer is missing the transfer source usage.
    SourceMissingTransferUsage,
    /// The destination buffer is missing the transfer destination usage.
    DestinationMissingTransferUsage,
    /// The source and destination are the same buffer.
    OverlappingRanges,
}

/// The resolved parameters of a buffer copy.
#[derive(Debug, Copy, Clone, PartialEq, Eq, Structural)]
pub struct CheckCopyBuffer {
    /// Number of bytes to copy.
    pub copy_size: u64,
}

/// The smaller of two sizes.
pub open spec fn min_u64(a: u64, b: u64) -> u64 {
    if a <= b {
        a
    } else {
        b
    }
}

/// The first rule that a copy from `source` to `destination` breaks, or the
/// length to copy.
pub open spec fn copy_buffer_check(source: Buffer, destination: Buffer) -> Result<
    CheckCopyBuffer,
    CheckCopyBufferError,
> {
    if !source.usage.transfer_source {
        Err(CheckCopyBufferError::SourceMissingTransferUsage)
    } else if !destination.usage.transfer_destination {
        Err(CheckCopyBufferError::DestinationMissingTransferUsage)
    } else if source.id == destination.id {
        Err(CheckCopyBufferError::OverlappingRanges)
    } else {
        Ok(CheckCopyBuffer { copy_size: min_u64(source.size, destination.size) })
    }
}

/// Checks a copy between two buffers; the copy covers the shorter of the two.
pub fn check_copy_buffer(source: &Buffer, destination: &Buffer) -> (r: Result<
    CheckCopyBuffer,
    CheckCopyBufferError,
>)
    ensures
        r == copy_buffer_check(*source, *destination),
{
    if !source.usage.transfer_source {
        Err(CheckCopyBufferError::SourceMissingTransferUsage)
    } else if !destination.usage.transfer_destination {
        Err(CheckCopyBufferError::DestinationMissingTransferUsage)
    } else if source.id == destination.id {
        Err(CheckCopyBufferError::OverlappingRanges)
    } else {
        let copy_size = if source.size <= destination.size {
            source.size
        } else {
            destination.size
        };
        Ok(CheckCopyBuffer { copy_size })
    }
}

/// Why a buffer cannot be filled.
#[derive(Debug, Copy, Clone, PartialEq, Eq, Structural)]
pub enum CheckFillBufferError {
    /// The buffer is missing the transfer destination usage.
    BufferMissingUsage,
    /// The buffer's offset is not a multiple of four.
    WrongAlignment,
}

/// The first rule that filling `buffer` breaks, if any.
pub open spec fn fill_buffer_check(buffer: Buffer) -> Result<(), CheckFillBufferError> {
    if !buffer.usage.transfer_destination {
        Err(CheckFillBufferError::BufferMissingUsage)
    } else if buffer.offset % 4 != 0 {
        Err(CheckFillBufferError::WrongAlignment)
    } else {
        Ok(())
    }
}

/// Checks that `buffer` can be filled with a repeated 32-bit word.
pub fn check_fill_buffer(buffer: &Buffer) -> (r: Result<(), CheckFillBufferError>)
    ensures
        r == fill_buffer_check(*buffer),
{
    if !buffer.usage.transfer_destination {
        Err(CheckFillBufferError::BufferMissingUsage)
    } else if buffer.offset % 4 != 0 {
        Err(CheckFillBufferError::WrongAlignment)
    } else {
        Ok(())
    }
}

/// Why a buffer cannot be updated inline.
#[derive(Debug, Copy, Clone, PartialEq, Eq, Structural)]
pub enum CheckUpdateBufferError {
    /// The buffer is missing the transfer destination usage.
    BufferMissingUsage,
    /// The buffer's offset or the data's size is not a multiple of four.
    WrongAlignment,
    /// The data is larger than an inline update may be.
    DataTooLarge,
}

/// The first rule that an inline update of `data_len` bytes into `buffer`
/// breaks, if any.
pub open spec fn update_buffer_check(buffer: Buffer, data_len: nat) -> Result<
    (),
    CheckUpdateBufferError,
> {
    if !buffer.usage.transfer_destination {
        Err(CheckUpdateBufferError::BufferMissingUsage)
    } else if buffer.offset % 4 != 0 || data_len % 4 != 0 {
        Err(CheckUpdateBufferError::WrongAlignment)
    } else if data_len > MAX_UPDATE_SIZE {
        Err(CheckUpdateBufferError::DataTooLarge)
    } else {
        Ok(())
    }
}

/// Checks that `data` can be written into `buffer` by an inline update.
pub fn check_update_buffer(buffer: &Buffer, data: &Vec<u8>) -> (r: Result<
    (),
    CheckUpdateBufferError,
>)
    ensures
        r == update_buffer_check(*buffer, data@.len()),
{
    if !buffer.usage.transfer_destination {
        Err(CheckUpdateBufferError::BufferMissingUsage)
    } else if buffer.offset % 4 != 0 || data.len() % 4 != 0 {
        Err(CheckUpdateBufferError::WrongAlignment)
    } else if data.len() as u64 > MAX_UPDATE_SIZE {
        Err(CheckUpdateBufferError::DataTooLarge)
    } else {
        Ok(())
    }
}

/// Why a dispatch is refused.
#[derive(Debug, Copy, Clone, PartialEq, Eq)]
pub enum CheckDispatchError {
    /// The dimensions exceed what the device supports.
    UnsupportedDimensions { requested: [u32; 3], max_supported: [u32; 3] },
}

/// Whether each dimension is within the device limit.
pub open spec fn dispatch_check(device: Device, dimensions: [u32; 3]) -> Result<(), CheckDispatchError> {
    let max = device.max_compute_work_group_count;
    if dimensions@[0] > max@[0] || dimensions@[1] > max@[1] || dimensions@[2] > max@[2] {
        Err(CheckDispatchError::UnsupportedDimensions { requested: dimensions, max_supported: max })
    } else {
        Ok(())
    }
}

/// Checks the dimensions of a dispatch against the device's limits.
pub fn check_dispatch(device: &Device, dimensions: [u32; 3]) -> (r: Result<(), CheckDispatchError>)
    ensures
        r == dispatch_check(*device, dimensions),
{
    let max = device.max_compute_work_group_count;
    if dimensions[0] > max[0] || dimensions[1] > max[1] || dimensions[2] > max[2] {
        Err(CheckDispatchError::UnsupportedDimensions { requested: dimensions, max_supported: max })
    } else {
        Ok(())
    }
}


/// Why push-constant data does not fit a pipeline layout.
#[derive(Debug, Copy, Clone, PartialEq, Eq, Structural)]
pub enum CheckPushConstantsValidityError {
    /// A push-constant range of the layout reaches past the end of the data.
    IncompatiblePushConstants,
}

/// Whether `data_len` bytes of push constants cover `range`.
pub open spec fn range_covered(range: PushConstantRange, data_len: nat) -> bool {
    range.offset + range.size <= data_len
}

/// Whether `data_len` bytes of push constants cover every range of `ranges`.
pub open spec fn push_constants_fit(ranges: Seq<PushConstantRange>, data_len: nat) -> bool {
    forall|i: int| 0 <= i < ranges.len() ==> range_covered(#[trigger] ranges[i], data_len)
}

/// Checks that the push-constant data covers every range that the layout declares.
pub fn check_push_constants_validity(layout: &PipelineLayout, data: &Vec<u8>) -> (r: Result<
    (),
    CheckPushConstantsValidityError,
>)
    ensures
        r is Ok <==> push_constants_fit(layout.push_constant_ranges@, data@.len()),
        r is Err ==> r == Err::<(), _>(CheckPushConstantsValidityError::IncompatiblePushConstants),
{
    let ranges = &layout.push_constant_ranges;
    let mut i: usize = 0;
    while i < ranges.len()
        invariant
            i <= ranges@.len(),
            ranges@ == layout.push_constant_ranges@,
            forall|j: int| 0 <= j < i ==> range_covered(#[trigger] ranges@[j], data@.len()),
        decreases ranges.len() - i,
    {
        let range = ranges[i];
        if range.offset as u64 + range.size as u64 > data.len() as u64 {
            assert(!range_covered(ranges@[i as int], data@.len()));
            return Err(CheckPushConstantsValidityError::IncompatiblePushConstants);
        }
        i += 1;
    }
    Ok(())
}

/// Why descriptor sets do not fit a pipeline layout.
#[derive(Debug, Copy, Clone, PartialEq, Eq, Structural)]
pub enum CheckDescriptorSetsValidityError {
    /// The layout expects a set with this number and none was given.
    MissingDescriptorSet { set_num: u64 },
    /// The set with this number has a layout other than the one expected.
    IncompatibleDescriptorSet { set_num: u64 },
}

/// The outcome of checking the sets from number `i` on.
pub open spec fn descriptor_sets_check_from(layouts: Seq<u64>, sets: Seq<DescriptorSet>, i: int) -> Result<
    (),
    CheckDescriptorSetsValidityError,
>
    decreases layouts.len() - i,
{
    if i < 0 || i >= layouts.len() {
        Ok(())
    } else if i >= sets.len() {
        Err(CheckDescriptorSetsValidityError::MissingDescriptorSet { set_num: i as u64 })
    } else if sets[i].layout != layouts[i] {
        Err(CheckDescriptorSetsValidityError::IncompatibleDescriptorSet { set_num: i as u64 })
    } else {
        descriptor_sets_check_from(layouts, sets, i + 1)
    }
}

/// The outcome of checking descriptor sets against the set layouts of a
/// pipeline: the first set number that is missing or incompatible, if any.
pub open spec fn descriptor_sets_check(layout: PipelineLayout, sets: Seq<DescriptorSet>) -> Result<
    (),
    CheckDescriptorSetsValidityError,
> {
    descriptor_sets_check_from(layout.set_layouts@, sets, 0)
}

/// Checks the descriptor sets against the set layouts of a pipeline.
pub fn check_descriptor_sets_validity(layout: &PipelineLayout, sets: &Vec<DescriptorSet>) -> (r: Result<
    (),
    CheckDescriptorSetsValidityError,
>)
    ensures
        r == descriptor_sets_check(*layout, sets@),
{
    let layouts = &layout.set_layouts;
    let mut i: usize = 0;
    while i < layouts.len()
        invariant
            i <= layouts@.len(),
            layouts@ == layout.set_layouts@,
            descriptor_sets_check(*layout, sets@) == descriptor_sets_check_from(
                layouts@,
                sets@,
                i as int,
            ),
        decreases layouts.len() - i,
    {
        if i >= sets.len() {
            return Err(CheckDescriptorSetsValidityError::MissingDescriptorSet { set_num: i as u64 });
        }
        if sets[i].layout != layouts[i] {
            return Err(
                CheckDescriptorSetsValidityError::IncompatibleDescriptorSet { set_num: i as u64 },
            );
        }
        i += 1;
    }
    Ok(())
}


/// Why a dynamic state does not fit a graphics pipeline.
#[derive(Debug, Copy, Clone, PartialEq, Eq, Structural)]
pub enum CheckDynamicStateValidityError {
    /// A line width was given but the pipeline's line width is not dynamic.
    LineWidthNotDynamic,
    /// The pipeline's line width is dynamic but none was given.
    LineWidthMissing,
    /// Viewports were given but the pipeline's viewports are not dynamic.
    ViewportsNotDynamic,
    /// The pipeline's viewports are dynamic but none were given.
    ViewportsMissing,
    /// The number of viewports differs from the pipeline's.
    ViewportCountMismatch { expected: u32, obtained: u64 },
    /// Scissors were given but the pipeline's scissors are not dynamic.
    ScissorsNotDynamic,
    /// The pipeline's scissors are dynamic but none were given.
    ScissorsMissing,
    /// The number of scissors differs from the pipeline's viewport count.
    ScissorCountMismatch { expected: u32, obtained: u64 },
}

/// The first rule that the dynamic state breaks for `pipeline`, if any: line
/// width, then viewports, then scissors.
pub open spec fn dynamic_state_check(pipeline: GraphicsPipeline, d: DynamicStateView) -> Result<
    (),
    CheckDynamicStateValidityError,
> {
    if pipeline.dynamic_line_width && d.line_width is None {
        Err(CheckDynamicStateValidityError::LineWidthMissing)
    } else if !pipeline.dynamic_line_width && d.line_width is Some {
        Err(CheckDynamicStateValidityError::LineWidthNotDynamic)
    } else if pipeline.dynamic_viewports && d.viewports is None {
        Err(CheckDynamicStateValidityError::ViewportsMissing)
    } else if pipeline.dynamic_viewports && d.viewports.unwrap().len() != pipeline.num_viewports {
        Err(
            CheckDynamicStateValidityError::ViewportCountMismatch {
                expected: pipeline.num_viewports,
                obtained: d.viewports.unwrap().len() as u64,
            },
        )
    } else if !pipeline.dynamic_viewports && d.viewports is Some {
        Err(CheckDynamicStateValidityError::ViewportsNotDynamic)
    } else if pipeline.dynamic_scissors && d.scissors is None {
        Err(CheckDynamicStateValidityError::ScissorsMissing)
    } else if pipeline.dynamic_scissors && d.scissors.unwrap().len() != pipeline.num_viewports {
        Err(
            CheckDynamicStateValidityError::ScissorCountMismatch {
                expected: pipeline.num_viewports,
                obtained: d.scissors.unwrap().len() as u64,
            },
        )
    } else if !pipeline.dynamic_scissors && d.scissors is Some {
        Err(CheckDynamicStateValidityError::ScissorsNotDynamic)
    } else {
        Ok(())
    }
}

/// Checks that the dynamic state gives exactly the fields that the pipeline
/// leaves dynamic, with one viewport and one scissor per pipeline viewport.
pub fn check_dynamic_state_validity(pipeline: &GraphicsPipeline, dynamic: &DynamicState) -> (r: Result<
    (),
    CheckDynamicStateValidityError,
>)
    ensures
        r == dynamic_state_check(*pipeline, dynamic@),
{
    if pipeline.dynamic_line_width {
        if dynamic.line_width.is_none() {
            return Err(CheckDynamicStateValidityError::LineWidthMissing);
        }
    } else if dynamic.line_width.is_some() {
        return Err(CheckDynamicStateValidityError::LineWidthNotDynamic);
    }
    if pipeline.dynamic_viewports {
        match &dynamic.viewports {
            Some(v) => {
                if v.len() as u64 != pipeline.num_viewports as u64 {
                    return Err(
                        CheckDynamicStateValidityError::ViewportCountMismatch {
                            expected: pipeline.num_viewports,
                            obtained: v.len() as u64,
                        },
                    );
                }
            },
            None => {
                return Err(CheckDynamicStateValidityError::ViewportsMissing);
            },
        }
    } else if dynamic.viewports.is_some() {
        return Err(CheckDynamicStateValidityError::ViewportsNotDynamic);
    }
    if pipeline.dynamic_scissors {
        match &dynamic.scissors {
            Some(v) => {
                if v.len() as u64 != pipeline.num_viewports as u64 {
                    return Err(
                        CheckDynamicStateValidityError::ScissorCountMismatch {
                            expected: pipeline.num_viewports,
                            obtained: v.len() as u64,
                        },
                    );
                }
            },
            None => {
                return Err(CheckDynamicStateValidityError::ScissorsMissing);
            },
        }
    } else if dynamic.scissors.is_some() {
        return Err(CheckDynamicStateValidityError::ScissorsNotDynamic);
    }
    Ok(())
}

/// Why an index buffer cannot be used.
#[derive(Debug, Copy, Clone, PartialEq, Eq, Structural)]
pub enum CheckIndexBufferError {
    /// The buffer is missing the index buffer usage.
    BufferMissingUsage,
}

/// The resolved parameters of an indexed draw.
#[derive(Debug, Copy, Clone, PartialEq, Eq, Structural)]
pub struct CheckIndexBuffer {
    /// Number of indices that the buffer holds.
    pub num_indices: u64,
}

/// Whether `buffer` can serve as an index buffer, and how many indices of
/// type `ty` it holds.
pub open spec fn index_buffer_check(buffer: Buffer, ty: IndexType) -> Result<
    CheckIndexBuffer,
    CheckIndexBufferError,
> {
    if !buffer.usage.index_buffer {
        Err(CheckIndexBufferError::BufferMissingUsage)
    } else {
        Ok(CheckIndexBuffer { num_indices: (buffer.size / ty.size_spec()) as u64 })
    }
}

/// Checks an index buffer and counts the indices it holds.
pub fn check_index_buffer(buffer: &Buffer, ty: IndexType) -> (r: Result<
    CheckIndexBuffer,
    CheckIndexBufferError,
>)
    ensures
        r == index_buffer_check(*buffer, ty),
{
    if !buffer.usage.index_buffer {
        Err(CheckIndexBufferError::BufferMissingUsage)
    } else {
        Ok(CheckIndexBuffer { num_indices: buffer.size / ty.size() })
    }
}

/// Why vertex buffers do not fit a graphics pipeline.
#[derive(Debug, Copy, Clone, PartialEq, Eq, Structural)]
pub enum CheckVertexBufferError {
    /// The number of buffers differs from the pipeline's number of bindings.
    WrongNumberOfBuffers { expected: u64, obtained: u64 },
    /// The buffer with this number is missing the vertex buffer usage.
    BufferMissingUsage { num_buffer: u64 },
    /// The pipeline's binding with this number has a stride of zero, so the
    /// number of elements its buffer holds is not defined.
    ZeroStride { num_binding: u64 },
}

/// The resolved parameters of a draw.
#[derive(Debug, Clone)]
pub struct CheckVertexBuffer {
    /// Identities of the vertex buffers, in binding order.
    pub vertex_buffers: Vec<u64>,
    pub vertex_count: u64,
    pub instance_count: u64,
}

/// Identities of buffers, in order.
pub open spec fn buffer_ids(bufs: Seq<Buffer>) -> Seq<u64> {
    bufs.map_values(|b: Buffer| b.id)
}

/// The number of elements that the first `n` bindings of the given rate
/// allow: the least over those bindings of the buffer's size divided by the
/// stride, or `None` where no such binding exists.
pub open spec fn count_limit(bindings: Seq<VertexBinding>, bufs: Seq<Buffer>, per_instance: bool, n: int) -> Option<u64>
    decreases n,
{
    if n <= 0 {
        None
    } else {
        let prev = count_limit(bindings, bufs, per_instance, n - 1);
        let b = bindings[n - 1];
        if b.per_instance != per_instance {
            prev
        } else {
            let c = (bufs[n - 1].size / b.stride) as u64;
            match prev {
                Some(p) => Some(min_u64(p, c)),
                None => Some(c),
            }
        }
    }
}

/// The first problem with the bindings from number `i` on.
pub open spec fn vertex_buffers_check_from(bindings: Seq<VertexBinding>, bufs: Seq<Buffer>, i: int) -> Result<
    (),
    CheckVertexBufferError,
>
    decreases bindings.len() - i,
{
    if i < 0 || i >= bindings.len() {
        Ok(())
    } else if !bufs[i].usage.vertex_buffer {
        Err(CheckVertexBufferError::BufferMissingUsage { num_buffer: i as u64 })
    } else if bindings[i].stride == 0 {
        Err(CheckVertexBufferError::ZeroStride { num_binding: i as u64 })
    } else {
        vertex_buffers_check_from(bindings, bufs, i + 1)
    }
}

/// The outcome of checking vertex buffers against a pipeline, as identities
/// and counts. Without per-vertex bindings no vertex is drawn; without
/// per-instance bindings one instance is.
pub open spec fn vertex_buffers_check(pipeline: GraphicsPipeline, bufs: Seq<Buffer>) -> Result<
    (Seq<u64>, u64, u64),
    CheckVertexBufferError,
> {
    let bindings = pipeline.vertex_bindings@;
    if bufs.len() != bindings.len() {
        Err(
            CheckVertexBufferError::WrongNumberOfBuffers {
                expected: bindings.len() as u64,
                obtained: bufs.len() as u64,
            },
        )
    } else {
        match vertex_buffers_check_from(bindings, bufs, 0) {
            Err(e) => Err(e),
            Ok(_) => Ok(
                (
                    buffer_ids(bufs),
                    match count_limit(bindings, bufs, false, bindings.len() as int) {
                        Some(c) => c,
                        None => 0,
                    },
                    match count_limit(bindings, bufs, true, bindings.len() as int) {
                        Some(c) => c,
                        None => 1,
                    },
                ),
            ),
        }
    }
}

/// Checks the vertex buffers against the pipeline's bindings, and resolves
/// the number of vertices and instances to draw.
pub fn check_vertex_buffers(pipeline: &GraphicsPipeline, vertices: &Vec<Buffer>) -> (r: Result<
    CheckVertexBuffer,
    CheckVertexBufferError,
>)
    ensures
        match (r, vertex_buffers_check(*pipeline, vertices@)) {
            (Ok(v), Ok((ids, vc, ic))) => v.vertex_buffers@ == ids && v.vertex_count == vc
                && v.instance_count == ic,
            (Err(e), Err(f)) => e == f,
            _ => false,
        },
{
    let bindings = &pipeline.vertex_bindings;
    if vertices.len() != bindings.len() {
        return Err(
            CheckVertexBufferError::WrongNumberOfBuffers {
                expected: bindings.len() as u64,
                obtained: vertices.len() as u64,
            },
        );
    }
    let mut ids: Vec<u64> = Vec::new();
    let mut vertex_limit: Option<u64> = None;
    let mut instance_limit: Option<u64> = None;
    let mut i: usize = 0;
    while i < bindings.len()
        invariant
            bindings@ == pipeline.vertex_bindings@,
            vertices@.len() == bindings@.len(),
            i <= bindings@.len(),
            vertex_buffers_check_from(bindings@, vertices@, 0) == vertex_buffers_check_from(
                bindings@,
                vertices@,
                i as int,
            ),
            ids@ == buffer_ids(vertices@).subrange(0, i as int),
            vertex_limit == count_limit(bindings@, vertices@, false, i as int),
            instance_limit == count_limit(bindings@, vertices@, true, i as int),
        decreases bindings.len() - i,
    {
        let buf = vertices[i];
        let binding = bindings[i];
        if !buf.usage.vertex_buffer {
            return Err(CheckVertexBufferError::BufferMissingUsage { num_buffer: i as u64 });
        }
        if binding.stride == 0 {
            return Err(CheckVertexBufferError::ZeroStride { num_binding: i as u64 });
        }
        let c = buf.size / binding.stride;
        if binding.per_instance {
            instance_limit = match instance_limit {
                Some(p) => Some(if p <= c { p } else { c }),
                None => Some(c),
            };
        } else {
            vertex_limit = match vertex_limit {
                Some(p) => Some(if p <= c { p } else { c }),
                None => Some(c),
            };
        }
        ids.push(buf.id);
        i += 1;
        assert(ids@ =~= buffer_ids(vertices@).subrange(0, i as int));
    }
    assert(ids@ =~= buffer_ids(vertices@));
    let vertex_count = match vertex_limit {
        Some(c) => c,
        None => 0,
    };
    let instance_count = match instance_limit {
        Some(c) => c,
        None => 1,
    };
    Ok(CheckVertexBuffer { vertex_buffers: ids, vertex_count, instance_count })
}

} // verus!
