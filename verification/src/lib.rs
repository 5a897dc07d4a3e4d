use vstd::prelude::*;

pub mod accel;
pub mod buffer;
pub mod cache;
pub mod descriptor;
pub mod dimensions;
pub mod encode;
pub mod extent_order;
pub mod format;
pub mod framebuffer;
pub mod glsl;
pub mod image;
pub mod shader;
pub mod vulkan;

verus! {

/// Out of device memory.
#[derive(Clone, Copy, Debug, PartialEq, Eq, Structural, Hash)]
pub struct OutOfMemory;

/// Type of the indices in an index buffer.
#[derive(Clone, Copy, Debug, PartialEq, Eq, Structural, Hash)]
pub enum IndexType {
    U16,
    U32,
}

/// Vulkan code of an index type, `None` standing for geometry without indices.
pub open spec fn spec_index_type_code(ty: Option<IndexType>) -> i32 {
    match ty {
        Some(IndexType::U16) => 0,
        Some(IndexType::U32) => 1,
        None => 1000165000,
    }
}

/// The Vulkan code of an index type, or of indexless geometry for `None`.
pub fn index_type_vk_code(ty: Option<IndexType>) -> (r: i32)
    ensures
        r == spec_index_type_code(ty),
{
    match ty {
        Some(IndexType::U16) => 0,
        Some(IndexType::U32) => 1,
        None => 1000165000,
    }
}

/// Address of a buffer or acceleration structure on the device; never zero.
#[derive(Clone, Copy, Debug, PartialEq, Eq, Structural, Hash)]
pub struct DeviceAddress {
    address: u64,
}

impl View for DeviceAddress {
    type V = u64;

    closed spec fn view(&self) -> u64 {
        self.address
    }
}

impl DeviceAddress {
    /// A device address is never zero.
    #[verifier::type_invariant]
    closed spec fn nonzero(&self) -> bool {
        self.address != 0
    }

    /// The address `value`, or `None` when it is zero.
    pub fn new(value: u64) -> (r: Option<Self>)
        ensures
            value == 0 ==> r is None,
            value != 0 ==> (r matches Some(a) && a@ == value),
    {
        if value == 0 {
            None
        } else {
            Some(DeviceAddress { address: value })
        }
    }

    /// The raw address.
    pub fn get(&self) -> (r: u64)
        ensures
            r == self@,
            r != 0,
    {
        proof {
            use_type_invariant(self);
        }
        self.address
    }
}

/// Rounds `value` up to the alignment described by `align_mask`
/// (an alignment minus one). Returns `None` on overflow.
pub fn align_up(align_mask: u64, value: u64) -> (r: Option<u64>)
    ensures
        value + align_mask > u64::MAX ==> r is None,
        value + align_mask <= u64::MAX ==> r == Some(((value + align_mask) as u64 & !align_mask)),
{
    match value.checked_add(align_mask) {
        Some(v) => Some(v & !align_mask),
        None => None,
    }
}

} // verus!
