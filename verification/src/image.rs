use vstd::prelude::*;

verus! {

/// The size of the buffer an `Image` views.
pub const IMAGE_SIZE: usize = 256;

/// A non-owning view over a fixed-size byte buffer. The stored borrow ties
/// the view's validity to the buffer's owning scope: an `Image` can never
/// outlive the bytes it references, so a dangling view is rejected at
/// compile time rather than ever observed.
pub struct Image<'a> {
    pub raw: &'a [u8; 256],
}

impl<'a> Image<'a> {
    /// Builds a view over the given buffer without copying it. The view
    /// exposes exactly the buffer's bytes.
    pub fn new(raw: &'a [u8; 256]) -> (img: Image<'a>)
        ensures
            img.raw@ == raw@,
    {
        Image { raw }
    }

    /// Returns the byte at position `i` of the viewed buffer.
    pub fn byte_at(&self, i: usize) -> (b: u8)
        requires
            i < IMAGE_SIZE,
        ensures
            b == self.raw@[i as int],
    {
        self.raw[i]
    }
}

} // verus!
