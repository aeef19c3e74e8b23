//! The handle that application code holds on a live window.

use vstd::prelude::*;
use std::sync::Arc;
use parking_lot::RwLock;
use crate::error::OSError;
use crate::frame_buffer::FrameBuffer;
use crate::geometry::{Length, Size};
use crate::state::WindowState;
use crate::sync::{new_lock, read_state, share_lock, write_state};

verus! {

/// Token by which the platform layer names a live window.
#[derive(Clone, Copy, Debug, PartialEq, Eq, Hash, Structural)]
pub struct WindowId {
    pub raw: u64,
}

impl WindowId {
    /// Wraps the platform's number for a window.
    pub fn new(raw: u64) -> (r: WindowId)
        ensures
            r.raw == raw,
    {
        WindowId { raw }
    }
}

/// Request to the platform layer to show a window's frame buffer on screen.
#[derive(Clone, Copy, Debug, PartialEq, Eq, Structural)]
pub struct Redraw {
    pub window: WindowId,
}

/// A live window: its identity, its pixel format, and its shared state.
///
/// Handles are cheap to clone, and every clone reads and writes the same
/// state. Each read takes the state's lock for itself, so two reads may see
/// the window before and after a resize; [`Window::snapshot`] reads size and
/// frame buffer under one lock.
#[derive(Debug)]
pub struct Window {
    id: WindowId,
    bytes_per_pixel: u8,
    inner: Arc<RwLock<WindowState>>,
}

impl Window {
    /// Identity of the window; it never changes.
    pub closed spec fn spec_id(&self) -> WindowId {
        self.id
    }

    /// Bytes that one pixel takes; it never changes.
    pub closed spec fn spec_bytes_per_pixel(&self) -> u8 {
        self.bytes_per_pixel
    }

    /// Both handles point at one lock, and so at one state.
    pub closed spec fn shares_state_with(&self, other: &Window) -> bool {
        self.inner == other.inner
    }

    /// What the event loop returns for the platform layer's answer to a
    /// creation request.
    pub open spec fn answers(
        created: Result<(WindowId, WindowState), OSError>,
        r: Result<Window, OSError>,
    ) -> bool {
        match created {
            Ok((id, state)) => {
                &&& r matches Ok(window)
                &&& window.spec_id() == id
                &&& window.spec_bytes_per_pixel() == state.spec_bytes_per_pixel()
            },
            Err(e) => r matches Err(f) && f == e,
        }
    }

    /// Wraps the platform layer's answer to a creation request: a handle
    /// around the initial state, or the platform's error as it came.
    pub fn open(created: Result<(WindowId, WindowState), OSError>) -> (r: Result<Window, OSError>)
        ensures
            Self::answers(created, r),
    {
        match created {
            Ok((id, state)) => Ok(
                Window {
                    id,
                    bytes_per_pixel: state.bytes_per_pixel(),
                    inner: Arc::new(new_lock(state)),
                },
            ),
            Err(e) => Err(e),
        }
    }

    /// Identity of the window.
    pub fn id(&self) -> (r: WindowId)
        ensures
            r == self.spec_id(),
    {
        self.id
    }

    /// Bytes that one pixel takes.
    pub fn bytes_per_pixel(&self) -> (r: u8)
        ensures
            r == self.spec_bytes_per_pixel(),
    {
        self.bytes_per_pixel
    }

    /// Size and frame buffer as they stood together at one moment.
    pub fn snapshot(&self) -> (r: WindowState)
        ensures
            r.is_consistent(),
    {
        let state = read_state(&self.inner);
        proof {
            use_type_invariant(&state);
        }
        state
    }

    /// Current size, read under the state's lock.
    pub fn size(&self) -> (r: Size)
        ensures
            r.spec_is_live(),
    {
        read_state(&self.inner).size()
    }

    /// Current width, read under the state's lock.
    pub fn width(&self) -> (r: Length)
        ensures
            r.spec_is_live(),
    {
        read_state(&self.inner).width()
    }

    /// Current height, read under the state's lock.
    pub fn height(&self) -> (r: Length)
        ensures
            r.spec_is_live(),
    {
        read_state(&self.inner).height()
    }

    /// Current frame buffer, base and length read together under the state's
    /// lock. The region may be gone after the next resize.
    pub fn frame_buffer(&self) -> (r: FrameBuffer)
        ensures
            r.is_addressable(),
    {
        let region = read_state(&self.inner).frame_buffer();
        proof {
            use_type_invariant(&region);
        }
        region
    }

    /// The request that the platform layer show this window's frame buffer.
    /// The state is not touched.
    pub fn redraw(&self) -> (r: Redraw)
        ensures
            r.window == self.spec_id(),
    {
        Redraw { window: self.id }
    }

    /// Replaces size and frame buffer together, under the state's write lock,
    /// where they are consistent with the window's pixel format; leaves the
    /// state alone where they are not. Returns whether the state was replaced.
    pub fn resize(&self, size: Size, frame_buffer: FrameBuffer) -> (r: bool)
        ensures
            r == WindowState::admits(size, frame_buffer, self.spec_bytes_per_pixel()),
    {
        match WindowState::new(size, frame_buffer, self.bytes_per_pixel) {
            Some(state) => {
                write_state(&self.inner, state);
                true
            },
            None => false,
        }
    }
}

impl Clone for Window {
    /// A second handle on the same window.
    fn clone(&self) -> (r: Window)
        ensures
            r.spec_id() == self.spec_id(),
            r.spec_bytes_per_pixel() == self.spec_bytes_per_pixel(),
            r.shares_state_with(self),
    {
        Window {
            id: self.id,
            bytes_per_pixel: self.bytes_per_pixel,
            inner: share_lock(&self.inner),
        }
    }
}

/// Sharing a state is an equivalence: every handle cloned, at any remove,
/// from the handle of one creation shares its state with every other.
pub proof fn lemma_sharing_is_an_equivalence(a: Window, b: Window, c: Window)
    ensures
        a.shares_state_with(&a),
        a.shares_state_with(&b) ==> b.shares_state_with(&a),
        a.shares_state_with(&b) && b.shares_state_with(&c) ==> a.shares_state_with(&c),
{
}

} // verus!
