use vstd::prelude::*;
use crate::descriptor::layout::DescriptorBindingFlags;
use crate::format::Format;

verus! {

/// Data of a buffer descriptor kept on the host, with a flag telling whether
/// the device copy must be refreshed.
#[derive(Clone, Copy, Debug)]
pub struct TypedBuffer<T> {
    data: T,
    is_dirty: bool,
}

impl<T> TypedBuffer<T> {
    /// The host data.
    pub closed spec fn spec_data(&self) -> T {
        self.data
    }

    /// Whether the device copy is out of date.
    pub closed spec fn spec_is_dirty(&self) -> bool {
        self.is_dirty
    }

    /// Wraps `data`; the device copy starts out of date.
    pub fn new(data: T) -> (r: Self)
        ensures
            r.spec_data() == data,
            r.spec_is_dirty(),
    {
        TypedBuffer { data, is_dirty: true }
    }

    /// Shared access to the host data.
    pub fn data(&self) -> (r: &T)
        ensures
            *r == self.spec_data(),
    {
        &self.data
    }

    /// Replaces the host data; the device copy becomes out of date.
    pub fn set_data(&mut self, data: T)
        ensures
            final(self).spec_data() == data,
            final(self).spec_is_dirty(),
    {
        self.data = data;
        self.is_dirty = true;
    }

    /// Whether the device copy is out of date.
    pub fn is_dirty(&self) -> (r: bool)
        ensures
            r == self.spec_is_dirty(),
    {
        self.is_dirty
    }

    /// Records that the device copy was refreshed from the host data.
    pub fn mark_uploaded(&mut self)
        ensures
            final(self).spec_data() == old(self).spec_data(),
            !final(self).spec_is_dirty(),
    {
        self.is_dirty = false;
    }
}

/// Types whose bytes can be uploaded into a buffer descriptor.
pub trait TypedBufferData {
    fn raw(&self) -> &[u8];
}

/// Buffer data with a size known at compile time.
pub trait UniformTypedBufferData: TypedBufferData {
    /// Static data size.
    fn static_size() -> usize;
}

/// Trait implemented for valid texel types.
pub trait TexelBufferData: TypedBufferData {
    const FORMAT: Format;
}

/// Texel data with a size known at compile time.
pub trait UniformTexelBufferData: UniformTypedBufferData + TexelBufferData {

}

impl<T> UniformTexelBufferData for T where T: UniformTypedBufferData + TexelBufferData {

}

/// Adds `PARTIALLY_BOUND` to binding flags.
pub fn with_partially_bound(flags: DescriptorBindingFlags) -> (r: DescriptorBindingFlags)
    ensures
        r@ == (flags@ | 4u32) & DescriptorBindingFlags::all_bits(),
{
    DescriptorBindingFlags::from_bits_truncate(
        flags.bits() | DescriptorBindingFlags::PARTIALLY_BOUND().bits(),
    )
}


/// Values that can be bound as descriptors `D`.
pub trait DescriptorBinding<D> {
    /// Whether the descriptor `descriptor` already bound to a set can stay bound for this
    /// value; `false` when a new descriptor must be bound.
    fn is_compatible(&self, descriptor: &D) -> bool;
}

/// `binding` answered `answer` when asked whether `descriptor` can stay bound for it.
pub open spec fn answered<D, T: DescriptorBinding<D>>(binding: T, descriptor: D, answer: bool) -> bool {
    call_ensures(T::is_compatible, (&binding, &descriptor), answer)
}

/// Whether the descriptors bound for an array of values can all stay bound: the array
/// has as many values as descriptors and each value is compatible with its descriptor.
/// Values are asked in order, and asking stops at the first incompatible one.
pub fn array_is_compatible<D, T: DescriptorBinding<D>>(bindings: &[T], descriptors: &[D]) -> (r: bool)
    ensures
        r ==> bindings@.len() == descriptors@.len() && forall|i: int|
            0 <= i < bindings@.len() ==> answered(#[trigger] bindings@[i], descriptors@[i], true),
        !r ==> bindings@.len() != descriptors@.len() || exists|i: int|
            0 <= i < bindings@.len() && answered(#[trigger] bindings@[i], descriptors@[i], false),
{
    if bindings.len() != descriptors.len() {
        return false;
    }
    let mut i: usize = 0;
    while i < bindings.len()
        invariant
            i <= bindings@.len(),
            bindings@.len() == descriptors@.len(),
            forall|j: int| 0 <= j < i ==> answered(#[trigger] bindings@[j], descriptors@[j], true),
        decreases bindings@.len() - i,
    {
        let ok = bindings[i].is_compatible(&descriptors[i]);
        if !ok {
            assert(answered(bindings@[i as int], descriptors@[i as int], false));
            return false;
        }
        i = i + 1;
    }
    true
}

} // verus!
