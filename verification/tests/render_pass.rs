use sierra::descriptor::layout::DescriptorType;
use sierra::framebuffer::CreateRenderPassError;
use sierra::vulkan::device::{descriptor_write_ranges, info_array, DescriptorInfoArray};
use sierra::vulkan::render_pass::{
    subpass_attachment_references, AttachmentReference, SubpassAttachments, SubpassReferenceRange,
};

fn subpass(colors: &[(u32, i32)], depth: Option<(u32, i32)>) -> SubpassAttachments {
    SubpassAttachments { colors: colors.to_vec(), depth }
}

#[test]
fn subpass_references_are_laid_out_in_order() {
    let subpasses = [subpass(&[(0, 2), (1, 2)], Some((2, 3))), subpass(&[(1, 5)], None)];
    let (refs, ranges) = subpass_attachment_references(&subpasses, 3).unwrap();
    assert_eq!(
        refs,
        vec![
            AttachmentReference { attachment: 0, layout: 2 },
            AttachmentReference { attachment: 1, layout: 2 },
            AttachmentReference { attachment: 2, layout: 3 },
            AttachmentReference { attachment: 1, layout: 5 },
        ]
    );
    assert_eq!(
        ranges,
        vec![
            SubpassReferenceRange { color_offset: 0, depth_offset: 2 },
            SubpassReferenceRange { color_offset: 3, depth_offset: 4 },
        ]
    );
}

#[test]
fn subpass_color_reference_out_of_bound() {
    let subpasses = [subpass(&[(0, 2)], None), subpass(&[(1, 2), (7, 2), (9, 2)], Some((8, 3)))];
    assert_eq!(
        subpass_attachment_references(&subpasses, 2).unwrap_err(),
        CreateRenderPassError::ColorAttachmentReferenceOutOfBound { subpass: 1, index: 1, attachment: 7 }
    );
}

#[test]
fn subpass_depth_reference_out_of_bound() {
    let subpasses = [subpass(&[(0, 2)], Some((4, 3)))];
    assert_eq!(
        subpass_attachment_references(&subpasses, 2).unwrap_err(),
        CreateRenderPassError::DepthAttachmentReferenceOutOfBound { subpass: 0, attachment: 4 }
    );
}

#[test]
fn subpass_reference_equal_to_count_is_accepted() {
    let subpasses = [subpass(&[(2, 2)], None)];
    assert!(subpass_attachment_references(&subpasses, 2).is_ok());
    let (refs, ranges) = subpass_attachment_references(&[], 0).unwrap();
    assert!(refs.is_empty() && ranges.is_empty());
}

#[test]
fn descriptor_writes_share_arrays_by_kind() {
    let writes = [
        (DescriptorType::SampledImage, 2),
        (DescriptorType::UniformBuffer, 1),
        (DescriptorType::Sampler, 3),
        (DescriptorType::AccelerationStructure, 1),
        (DescriptorType::StorageBufferDynamic, 4),
        (DescriptorType::InputAttachment, 0),
    ];
    let ranges = descriptor_write_ranges(&writes);
    assert_eq!(ranges, vec![0..2, 0..1, 2..5, 0..1, 1..5, 5..5]);
    assert_eq!(info_array(DescriptorType::CombinedImageSampler), DescriptorInfoArray::Images);
    assert_eq!(info_array(DescriptorType::StorageTexelBuffer), DescriptorInfoArray::BufferViews);
    assert!(descriptor_write_ranges(&[]).is_empty());
}
