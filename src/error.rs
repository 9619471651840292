use vstd::prelude::*;
use crate::validity::{
    CheckClearColorImageError, CheckCopyBufferError, CheckDescriptorSetsValidityError,
    CheckDispatchError, CheckDynamicStateValidityError, CheckFillBufferError,
    CheckIndexBufferError, CheckPushConstantsValidityError, CheckUpdateBufferError,
    CheckVertexBufferError,
};

verus! {

/// Misuse of the recorder's render-pass structure.
#[derive(Debug, Copy, Clone, PartialEq, Eq, Structural)]
pub enum AutoCommandBufferBuilderContextError {
    /// Operation forbidden in a secondary command buffer.
    ForbiddenInSecondary,
    /// Operation forbidden inside of a render pass.
    ForbiddenInsideRenderPass,
    /// Operation forbidden outside of a render pass.
    ForbiddenOutsideRenderPass,
    /// Tried to end a render pass with subpasses remaining, or tried to go to the next subpass
    /// with no subpass remaining.
    NumSubpassesMismatch,
    /// Tried to execute a secondary command buffer inside a subpass that only allows inline
    /// commands, or a draw command in a subpass that only allows secondary command buffers.
    WrongSubpassType,
}

impl AutoCommandBufferBuilderContextError {
    /// The text that describes each error.
    pub open spec fn description_spec(self) -> Seq<char> {
        match self {
            AutoCommandBufferBuilderContextError::ForbiddenInSecondary => "operation forbidden in a secondary command buffer"@,
            AutoCommandBufferBuilderContextError::ForbiddenInsideRenderPass => "operation forbidden inside of a render pass"@,
            AutoCommandBufferBuilderContextError::ForbiddenOutsideRenderPass => "operation forbidden outside of a render pass"@,
            AutoCommandBufferBuilderContextError::NumSubpassesMismatch => "tried to end a render pass with subpasses remaining, or tried to go to next subpass with no subpass remaining"@,
            AutoCommandBufferBuilderContextError::WrongSubpassType => "tried to execute a secondary command buffer inside a subpass that only allows inline commands, or a draw command in a subpass that only allows secondary command buffers"@,
        }
    }

    /// A human-readable description of the error.
    pub fn description(&self) -> (r: &'static str)
        ensures
            r@ == self.description_spec(),
    {
        match self {
            AutoCommandBufferBuilderContextError::ForbiddenInSecondary => "operation forbidden in a secondary command buffer",
            AutoCommandBufferBuilderContextError::ForbiddenInsideRenderPass => "operation forbidden inside of a render pass",
            AutoCommandBufferBuilderContextError::ForbiddenOutsideRenderPass => "operation forbidden outside of a render pass",
            AutoCommandBufferBuilderContextError::NumSubpassesMismatch => "tried to end a render pass with subpasses remaining, or tried to go to next subpass with no subpass remaining",
            AutoCommandBufferBuilderContextError::WrongSubpassType => "tried to execute a secondary command buffer inside a subpass that only allows inline commands, or a draw command in a subpass that only allows secondary command buffers",
        }
    }
}

/// The device or the host ran out of memory.
#[derive(Debug, Copy, Clone, PartialEq, Eq, Structural)]
pub enum OomError {
    OutOfHostMemory,
    OutOfDeviceMemory,
}

/// Why a command buffer cannot be built.
#[derive(Debug, Copy, Clone, PartialEq, Eq, Structural)]
pub enum BuildError {
    AutoCommandBufferBuilderContextError(AutoCommandBufferBuilderContextError),
    OomError(OomError),
}

/// Why a render pass cannot be entered.
#[derive(Debug, Copy, Clone, PartialEq, Eq, Structural)]
pub enum BeginRenderPassError {
    AutoCommandBufferBuilderContextError(AutoCommandBufferBuilderContextError),
}

/// Why an image cannot be cleared.
#[derive(Debug, Copy, Clone, PartialEq, Eq, Structural)]
pub enum ClearColorImageError {
    AutoCommandBufferBuilderContextError(AutoCommandBufferBuilderContextError),
    CheckClearColorImageError(CheckClearColorImageError),
}

/// Why a buffer cannot be copied.
#[derive(Debug, Copy, Clone, PartialEq, Eq, Structural)]
pub enum CopyBufferError {
    AutoCommandBufferBuilderContextError(AutoCommandBufferBuilderContextError),
    CheckCopyBufferError(CheckCopyBufferError),
}

/// Why a buffer cannot be copied to an image.
#[derive(Debug, Copy, Clone, PartialEq, Eq, Structural)]
pub enum CopyBufferToImageError {
    AutoCommandBufferBuilderContextError(AutoCommandBufferBuilderContextError),
    /// The image has no color aspect; copies to other aspects are not supported.
    UnsupportedAspect,
}

/// Why a buffer cannot be filled.
#[derive(Debug, Copy, Clone, PartialEq, Eq, Structural)]
pub enum FillBufferError {
    AutoCommandBufferBuilderContextError(AutoCommandBufferBuilderContextError),
    CheckFillBufferError(CheckFillBufferError),
}

/// Why a buffer cannot be updated.
#[derive(Debug, Copy, Clone, PartialEq, Eq, Structural)]
pub enum UpdateBufferError {
    AutoCommandBufferBuilderContextError(AutoCommandBufferBuilderContextError),
    CheckUpdateBufferError(CheckUpdateBufferError),
    /// The buffer is not larger than the data; such updates are not supported.
    UnsupportedSize,
}

/// Why a compute dispatch cannot be recorded.
#[derive(Debug, Copy, Clone, PartialEq, Eq)]
pub enum DispatchError {
    AutoCommandBufferBuilderContextError(AutoCommandBufferBuilderContextError),
    CheckPushConstantsValidityError(CheckPushConstantsValidityError),
    CheckDescriptorSetsValidityError(CheckDescriptorSetsValidityError),
    CheckDispatchError(CheckDispatchError),
}

/// Why a draw cannot be recorded.
#[derive(Debug, Copy, Clone, PartialEq, Eq, Structural)]
pub enum DrawError {
    AutoCommandBufferBuilderContextError(AutoCommandBufferBuilderContextError),
    CheckDynamicStateValidityError(CheckDynamicStateValidityError),
    CheckPushConstantsValidityError(CheckPushConstantsValidityError),
    CheckDescriptorSetsValidityError(CheckDescriptorSetsValidityError),
    CheckVertexBufferError(CheckVertexBufferError),
}

/// Why an indexed draw cannot be recorded.
#[derive(Debug, Copy, Clone, PartialEq, Eq, Structural)]
pub enum DrawIndexedError {
    AutoCommandBufferBuilderContextError(AutoCommandBufferBuilderContextError),
    CheckDynamicStateValidityError(CheckDynamicStateValidityError),
    CheckPushConstantsValidityError(CheckPushConstantsValidityError),
    CheckDescriptorSetsValidityError(CheckDescriptorSetsValidityError),
    CheckVertexBufferError(CheckVertexBufferError),
    CheckIndexBufferError(CheckIndexBufferError),
}

/// Why an indirect draw cannot be recorded.
#[derive(Debug, Copy, Clone, PartialEq, Eq, Structural)]
pub enum DrawIndirectError {
    AutoCommandBufferBuilderContextError(AutoCommandBufferBuilderContextError),
    CheckDynamicStateValidityError(CheckDynamicStateValidityError),
    CheckPushConstantsValidityError(CheckPushConstantsValidityError),
    CheckDescriptorSetsValidityError(CheckDescriptorSetsValidityError),
    CheckVertexBufferError(CheckVertexBufferError),
}

} // verus!
