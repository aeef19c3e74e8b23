//! The record that a window's lock guards.

use vstd::prelude::*;
use crate::frame_buffer::FrameBuffer;
use crate::geometry::{Length, Size};

verus! {

/// Size and pixel memory of one live window, with the pixel format's width.
///
/// A value of this type is always consistent: the size is live and the frame
/// buffer is exactly as long as the size and the pixel format imply. It is
/// built whole and replaced whole, never edited field by field.
#[derive(Clone, Copy, Debug, PartialEq, Eq)]
pub struct WindowState {
    size: Size,
    frame_buffer: FrameBuffer,
    bytes_per_pixel: u8,
}

impl WindowState {
    /// The three values may form the state of a live window: the size is
    /// finite and not below zero, and the frame buffer holds exactly
    /// `width * height * bytes_per_pixel` bytes.
    pub open spec fn admits(size: Size, frame_buffer: FrameBuffer, bytes_per_pixel: u8) -> bool {
        size.spec_has_byte_length(bytes_per_pixel as nat, frame_buffer.spec_len() as nat)
    }

    /// [`WindowState::admits`] holds of the fields. Every state that code
    /// can hold is consistent.
    #[verifier::type_invariant]
    pub open spec fn is_consistent(&self) -> bool {
        Self::admits(self.spec_size(), self.spec_frame_buffer(), self.spec_bytes_per_pixel())
    }

    /// Logical size.
    pub closed spec fn spec_size(&self) -> Size {
        self.size
    }

    /// Pixel memory.
    pub closed spec fn spec_frame_buffer(&self) -> FrameBuffer {
        self.frame_buffer
    }

    /// Bytes that one pixel takes.
    pub closed spec fn spec_bytes_per_pixel(&self) -> u8 {
        self.bytes_per_pixel
    }

    /// Forms a state from the three values where they are consistent.
    pub fn new(size: Size, frame_buffer: FrameBuffer, bytes_per_pixel: u8) -> (r: Option<
        WindowState,
    >)
        ensures
            r is Some <==> Self::admits(size, frame_buffer, bytes_per_pixel),
            r matches Some(state) ==> {
                &&& state.spec_size() == size
                &&& state.spec_frame_buffer() == frame_buffer
                &&& state.spec_bytes_per_pixel() == bytes_per_pixel
            },
    {
        if size.has_byte_length(bytes_per_pixel, frame_buffer.len()) {
            Some(WindowState { size, frame_buffer, bytes_per_pixel })
        } else {
            None
        }
    }

    /// Logical size; it is live.
    pub fn size(&self) -> (r: Size)
        ensures
            r == self.spec_size(),
            r.spec_is_live(),
    {
        proof {
            use_type_invariant(self);
        }
        self.size
    }

    /// Width of the logical size; it is live.
    pub fn width(&self) -> (r: Length)
        ensures
            r == self.spec_size().width,
            r.spec_is_live(),
    {
        proof {
            use_type_invariant(self);
        }
        self.size.width
    }

    /// Height of the logical size; it is live.
    pub fn height(&self) -> (r: Length)
        ensures
            r == self.spec_size().height,
            r.spec_is_live(),
    {
        proof {
            use_type_invariant(self);
        }
        self.size.height
    }

    /// Pixel memory; its length is the one the size implies.
    pub fn frame_buffer(&self) -> (r: FrameBuffer)
        ensures
            r == self.spec_frame_buffer(),
            self.is_consistent(),
    {
        proof {
            use_type_invariant(self);
        }
        self.frame_buffer
    }

    /// Bytes that one pixel takes.
    pub fn bytes_per_pixel(&self) -> (r: u8)
        ensures
            r == self.spec_bytes_per_pixel(),
    {
        self.bytes_per_pixel
    }
}

/// In a consistent state whose width and height are the whole numbers `w`
/// and `h`, the frame buffer holds `w * h * bytes_per_pixel` bytes: the
/// length and the size always belong to the same resize.
pub proof fn lemma_frame_buffer_matches_size(state: WindowState, w: nat, h: nat)
    requires
        state.is_consistent(),
        state.spec_size().width.denotes(w),
        state.spec_size().height.denotes(h),
    ensures
        state.spec_frame_buffer().spec_len() == w * h * state.spec_bytes_per_pixel(),
{
    state.spec_size().lemma_integral_byte_length(
        w,
        h,
        state.spec_bytes_per_pixel() as nat,
        state.spec_frame_buffer().spec_len() as nat,
    );
}

} // verus!
