//! The descriptor of a window's pixel memory.

use vstd::prelude::*;

verus! {

/// Base address and byte length of the memory a window is drawn into.
///
/// The memory belongs to the platform layer. This type only names it, and a
/// value of it always names a region that can exist: see
/// [`FrameBuffer::addressable`]. The two numbers travel together, so a reader
/// never sees the base of one region with the length of another.
#[derive(Clone, Copy, Debug, PartialEq, Eq)]
pub struct FrameBuffer {
    base: usize,
    len: usize,
}

impl FrameBuffer {
    /// What holds of every region of valid memory: it is no longer than the
    /// largest object, it does not run past the end of the address space, and
    /// it does not start at the null address unless it is empty.
    pub open spec fn addressable(base: usize, len: usize) -> bool {
        &&& len <= isize::MAX
        &&& base + len <= usize::MAX
        &&& (len > 0 ==> base != 0)
    }

    /// [`FrameBuffer::addressable`] holds of the fields. Every descriptor
    /// that code can hold is addressable.
    #[verifier::type_invariant]
    pub open spec fn is_addressable(&self) -> bool {
        Self::addressable(self.spec_base(), self.spec_len())
    }

    /// Address of the first byte.
    pub closed spec fn spec_base(&self) -> usize {
        self.base
    }

    /// Number of bytes.
    pub closed spec fn spec_len(&self) -> usize {
        self.len
    }

    /// Names the `len` bytes at `base`, unless no such region can exist.
    pub fn new(base: usize, len: usize) -> (r: Option<FrameBuffer>)
        ensures
            r is Some <==> Self::addressable(base, len),
            r matches Some(region) ==> region.spec_base() == base && region.spec_len() == len,
    {
        if len <= isize::MAX as usize && len <= usize::MAX - base && (len == 0 || base != 0) {
            Some(FrameBuffer { base, len })
        } else {
            None
        }
    }

    /// Address of the first byte.
    pub fn base(&self) -> (r: usize)
        ensures
            r == self.spec_base(),
            self.is_addressable(),
    {
        proof {
            use_type_invariant(self);
        }
        self.base
    }

    /// Number of bytes.
    pub fn len(&self) -> (r: usize)
        ensures
            r == self.spec_len(),
            self.is_addressable(),
    {
        proof {
            use_type_invariant(self);
        }
        self.len
    }

    /// Whether the region holds no byte.
    pub fn is_empty(&self) -> (r: bool)
        ensures
            r == (self.spec_len() == 0),
    {
        self.len == 0
    }
}

} // verus!
