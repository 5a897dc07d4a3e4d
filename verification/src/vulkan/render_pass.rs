use vstd::prelude::*;
use crate::framebuffer::CreateRenderPassError;

verus! {

/// Attachments that one subpass uses: color attachments, then an optional depth-stencil
/// attachment, each as an attachment index and a Vulkan image layout code.
#[derive(Clone, Debug)]
pub struct SubpassAttachments {
    pub colors: Vec<(u32, i32)>,
    pub depth: Option<(u32, i32)>,
}

/// Reference of a subpass to an attachment of the render pass.
#[derive(Clone, Copy, Debug, PartialEq, Eq)]
pub struct AttachmentReference {
    pub attachment: u32,
    pub layout: i32,
}

/// Where the references of one subpass lie in the flat list of references:
/// its color references start at `color_offset`, its depth reference (if any) at `depth_offset`.
#[derive(Clone, Copy, Debug, PartialEq, Eq)]
pub struct SubpassReferenceRange {
    pub color_offset: usize,
    pub depth_offset: usize,
}

/// An attachment index is accepted when it is at most the number of attachments.
pub open spec fn reference_in_bounds(attachment: u32, attachment_count: usize) -> bool {
    attachment <= attachment_count
}

/// Every reference of the subpass is accepted.
pub open spec fn subpass_in_bounds(s: SubpassAttachments, attachment_count: usize) -> bool {
    &&& forall|c: int| 0 <= c < s.colors@.len() ==> reference_in_bounds(#[trigger] s.colors@[c].0, attachment_count)
    &&& s.depth matches Some(d) ==> reference_in_bounds(d.0, attachment_count)
}

/// The references of one subpass: its colors in order, then its depth attachment.
pub open spec fn subpass_references(s: SubpassAttachments) -> Seq<AttachmentReference> {
    s.colors@.map_values(|c: (u32, i32)| AttachmentReference { attachment: c.0, layout: c.1 })
        + match s.depth {
        Some(d) => seq![AttachmentReference { attachment: d.0, layout: d.1 }],
        None => Seq::empty(),
    }
}

/// The references of all subpasses, one subpass after another.
pub open spec fn all_references(subpasses: Seq<SubpassAttachments>) -> Seq<AttachmentReference>
    decreases subpasses.len(),
{
    if subpasses.len() == 0 {
        Seq::empty()
    } else {
        all_references(subpasses.drop_last()) + subpass_references(subpasses.last())
    }
}

/// The error for the first reference, in subpass order and within a subpass colors first,
/// that is out of bounds: subpasses before `subpass` and colors before `index` are fine.
pub open spec fn is_first_out_of_bound(
    subpasses: Seq<SubpassAttachments>,
    attachment_count: usize,
    e: CreateRenderPassError,
) -> bool {
    match e {
        CreateRenderPassError::ColorAttachmentReferenceOutOfBound { subpass, index, attachment } => {
            &&& subpass < subpasses.len()
            &&& forall|i: int| 0 <= i < subpass ==> subpass_in_bounds(#[trigger] subpasses[i], attachment_count)
            &&& index < subpasses[subpass as int].colors@.len()
            &&& forall|c: int|
                0 <= c < index ==> reference_in_bounds(
                    #[trigger] subpasses[subpass as int].colors@[c].0,
                    attachment_count,
                )
            &&& subpasses[subpass as int].colors@[index as int].0 == attachment
            &&& !reference_in_bounds(attachment, attachment_count)
        },
        CreateRenderPassError::DepthAttachmentReferenceOutOfBound { subpass, attachment } => {
            &&& subpass < subpasses.len()
            &&& forall|i: int| 0 <= i < subpass ==> subpass_in_bounds(#[trigger] subpasses[i], attachment_count)
            &&& forall|c: int|
                0 <= c < subpasses[subpass as int].colors@.len() ==> reference_in_bounds(
                    #[trigger] subpasses[subpass as int].colors@[c].0,
                    attachment_count,
                )
            &&& subpasses[subpass as int].depth matches Some(d) && d.0 == attachment
            &&& !reference_in_bounds(attachment, attachment_count)
        },
        CreateRenderPassError::OutOfMemory { .. } => false,
    }
}

/// Checks the attachment references of the subpasses of a render pass with
/// `attachment_count` attachments and lays them out in one list, subpass after subpass.
/// Fails on the first reference that is out of bounds.
pub fn subpass_attachment_references(subpasses: &[SubpassAttachments], attachment_count: usize) -> (r:
    Result<(Vec<AttachmentReference>, Vec<SubpassReferenceRange>), CreateRenderPassError>)
    ensures
        r is Ok <==> forall|i: int| 0 <= i < subpasses@.len() ==> subpass_in_bounds(#[trigger] subpasses@[i], attachment_count),
        r matches Ok((refs, ranges)) ==> {
            &&& refs@ == all_references(subpasses@)
            &&& ranges@.len() == subpasses@.len()
            &&& forall|i: int|
                0 <= i < subpasses@.len() ==> {
                    &&& (#[trigger] ranges@[i]).color_offset == all_references(subpasses@.take(i)).len()
                    &&& ranges@[i].depth_offset == ranges@[i].color_offset + subpasses@[i].colors@.len()
                }
        },
        r matches Err(e) ==> is_first_out_of_bound(subpasses@, attachment_count, e),
{
    let mut refs: Vec<AttachmentReference> = Vec::new();
    let mut ranges: Vec<SubpassReferenceRange> = Vec::new();
    let mut si: usize = 0;
    while si < subpasses.len()
        invariant
            si <= subpasses@.len(),
            forall|i: int| 0 <= i < si ==> subpass_in_bounds(#[trigger] subpasses@[i], attachment_count),
            refs@ == all_references(subpasses@.take(si as int)),
            ranges@.len() == si,
            forall|i: int|
                0 <= i < si ==> {
                    &&& (#[trigger] ranges@[i]).color_offset == all_references(subpasses@.take(i)).len()
                    &&& ranges@[i].depth_offset == ranges@[i].color_offset + subpasses@[i].colors@.len()
                },
        decreases subpasses@.len() - si,
    {
        let s = &subpasses[si];
        let color_offset = refs.len();
        let ghost start = refs@;
        let mut ci: usize = 0;
        while ci < s.colors.len()
            invariant
                ci <= s.colors@.len(),
                si < subpasses@.len(),
                *s == subpasses@[si as int],
                forall|i: int| 0 <= i < si ==> subpass_in_bounds(#[trigger] subpasses@[i], attachment_count),
                forall|c: int| 0 <= c < ci ==> reference_in_bounds(#[trigger] s.colors@[c].0, attachment_count),
                refs@ == start + s.colors@.take(ci as int).map_values(
                    |c: (u32, i32)| AttachmentReference { attachment: c.0, layout: c.1 },
                ),
            decreases s.colors@.len() - ci,
        {
            let (attachment, layout) = s.colors[ci];
            if attachment as u64 > attachment_count as u64 {
                let e = CreateRenderPassError::ColorAttachmentReferenceOutOfBound {
                    subpass: si,
                    index: ci,
                    attachment,
                };
                assert(is_first_out_of_bound(subpasses@, attachment_count, e));
                return Err(e);
            }
            refs.push(AttachmentReference { attachment, layout });
            ci = ci + 1;
            assert(s.colors@.take(ci as int) =~= s.colors@.take(ci - 1).push(s.colors@[ci - 1]));
            assert(refs@ =~= start + s.colors@.take(ci as int).map_values(
                |c: (u32, i32)| AttachmentReference { attachment: c.0, layout: c.1 },
            ));
        }
        let depth_offset = refs.len();
        match s.depth {
            Some((attachment, layout)) => {
                if attachment as u64 > attachment_count as u64 {
                    let e = CreateRenderPassError::DepthAttachmentReferenceOutOfBound { subpass: si, attachment };
                    assert(is_first_out_of_bound(subpasses@, attachment_count, e));
                    return Err(e);
                }
                refs.push(AttachmentReference { attachment, layout });
            },
            None => {},
        }
        proof {
            let next = subpasses@.take(si + 1);
            assert(next.drop_last() =~= subpasses@.take(si as int));
            assert(next.last() == *s);
            assert(s.colors@.take(s.colors@.len() as int) =~= s.colors@);
            assert(refs@ =~= all_references(next));
        }
        ranges.push(SubpassReferenceRange { color_offset, depth_offset });
        si = si + 1;
    }
    assert(subpasses@.take(si as int) =~= subpasses@);
    Ok((refs, ranges))
}

} // verus!
