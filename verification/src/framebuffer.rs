use vstd::prelude::*;
use crate::image::ImageInfo;
use crate::OutOfMemory;

verus! {

/// Error that may occur when a render pass is created.
#[derive(Clone, Copy, Debug, PartialEq, Eq)]
pub enum CreateRenderPassError {
    /// Out of device memory.
    OutOfMemory { source: OutOfMemory },
    /// A subpass refers by a color attachment to an attachment that does not exist.
    ColorAttachmentReferenceOutOfBound { subpass: usize, index: usize, attachment: u32 },
    /// A subpass refers by its depth attachment to an attachment that does not exist.
    DepthAttachmentReferenceOutOfBound { subpass: usize, attachment: u32 },
}

/// Error that may occur when a framebuffer is created for a render pass.
#[derive(Clone, Copy, Debug, PartialEq, Eq)]
pub enum FramebufferError {
    /// Out of device memory.
    OutOfMemory { source: OutOfMemory },
    /// A subpass refers by a color attachment to an attachment that does not exist.
    ColorAttachmentReferenceOutOfBound { subpass: usize, index: usize, attachment: u32 },
    /// A subpass refers by its depth attachment to an attachment that does not exist.
    DepthAttachmentReferenceOutOfBound { subpass: usize, attachment: u32 },
    /// No image with these parameters can be created.
    Unsupported { info: ImageInfo },
}

impl From<OutOfMemory> for FramebufferError {
    fn from(source: OutOfMemory) -> (r: Self) {
        FramebufferError::OutOfMemory { source }
    }
}

impl vstd::std_specs::convert::FromSpecImpl<OutOfMemory> for FramebufferError {
    open spec fn obeys_from_spec() -> bool {
        true
    }

    open spec fn from_spec(source: OutOfMemory) -> Self {
        FramebufferError::OutOfMemory { source }
    }
}

/// The framebuffer error that a render pass error stands for: each variant keeps its fields.
pub open spec fn spec_framebuffer_error_of(err: CreateRenderPassError) -> FramebufferError {
    match err {
        CreateRenderPassError::OutOfMemory { source } => FramebufferError::OutOfMemory { source },
        CreateRenderPassError::ColorAttachmentReferenceOutOfBound { subpass, index, attachment } =>
            FramebufferError::ColorAttachmentReferenceOutOfBound { subpass, index, attachment },
        CreateRenderPassError::DepthAttachmentReferenceOutOfBound { subpass, attachment } =>
            FramebufferError::DepthAttachmentReferenceOutOfBound { subpass, attachment },
    }
}

impl From<CreateRenderPassError> for FramebufferError {
    fn from(err: CreateRenderPassError) -> (r: Self) {
        match err {
            CreateRenderPassError::OutOfMemory { source } => FramebufferError::OutOfMemory { source },
            CreateRenderPassError::ColorAttachmentReferenceOutOfBound {
                subpass,
                index,
                attachment,
            } => FramebufferError::ColorAttachmentReferenceOutOfBound { subpass, index, attachment },
            CreateRenderPassError::DepthAttachmentReferenceOutOfBound { subpass, attachment } =>
                FramebufferError::DepthAttachmentReferenceOutOfBound { subpass, attachment },
        }
    }
}

impl vstd::std_specs::convert::FromSpecImpl<CreateRenderPassError> for FramebufferError {
    open spec fn obeys_from_spec() -> bool {
        true
    }

    open spec fn from_spec(err: CreateRenderPassError) -> Self {
        spec_framebuffer_error_of(err)
    }
}

} // verus!
