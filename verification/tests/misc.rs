use sierra::buffer::{BufferUsage};
use sierra::descriptor::binding::TypedBuffer;
use sierra::descriptor::DescriptorsAllocationError;
use sierra::framebuffer::{CreateRenderPassError, FramebufferError};
use sierra::{align_up, DeviceAddress, OutOfMemory};

#[test]
fn align_up_rounds_to_mask() {
    assert_eq!(align_up(0xff, 0), Some(0));
    assert_eq!(align_up(0xff, 1), Some(256));
    assert_eq!(align_up(0xff, 256), Some(256));
    assert_eq!(align_up(0x3, 13), Some(16));
    assert_eq!(align_up(0, 13), Some(13));
    assert_eq!(align_up(0xf, u64::MAX - 3), None);
}

#[test]
fn device_address_is_nonzero() {
    assert!(DeviceAddress::new(0).is_none());
    assert_eq!(DeviceAddress::new(0x1000).map(|a| a.get()), Some(0x1000));
}

#[test]
fn typed_buffer_tracks_changes() {
    let mut b = TypedBuffer::new(3u32);
    assert!(b.is_dirty());
    b.mark_uploaded();
    assert!(!b.is_dirty());
    assert_eq!(*b.data(), 3);
    b.set_data(4);
    assert!(b.is_dirty());
    assert_eq!(*b.data(), 4);
}

#[test]
fn framebuffer_error_from_render_pass_error() {
    let e = CreateRenderPassError::ColorAttachmentReferenceOutOfBound { subpass: 1, index: 2, attachment: 3 };
    assert_eq!(
        FramebufferError::from(e),
        FramebufferError::ColorAttachmentReferenceOutOfBound { subpass: 1, index: 2, attachment: 3 }
    );
    let e = CreateRenderPassError::DepthAttachmentReferenceOutOfBound { subpass: 4, attachment: 5 };
    assert_eq!(
        FramebufferError::from(e),
        FramebufferError::DepthAttachmentReferenceOutOfBound { subpass: 4, attachment: 5 }
    );
    let e = CreateRenderPassError::OutOfMemory { source: OutOfMemory };
    assert_eq!(FramebufferError::from(e), FramebufferError::OutOfMemory { source: OutOfMemory });
    assert_eq!(FramebufferError::from(OutOfMemory), FramebufferError::OutOfMemory { source: OutOfMemory });
}

#[test]
fn descriptors_allocation_error_from_oom() {
    assert_eq!(
        DescriptorsAllocationError::from(OutOfMemory),
        DescriptorsAllocationError::OutOfMemory { source: OutOfMemory }
    );
}

#[test]
fn buffer_usage_default_is_empty() {
    assert_eq!(BufferUsage::empty().bits(), 0);
}
