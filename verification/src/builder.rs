//! The description of a window that does not exist yet.

use vstd::prelude::*;
use crate::error::OSError;
use crate::geometry::{lemma_default_dimensions, Length, Size, DEFAULT_HEIGHT_BITS, DEFAULT_WIDTH_BITS};
use crate::state::WindowState;
use crate::window::{Window, WindowId};

verus! {

/// Width and height asked of the next window.
///
/// A builder is an immutable value: each `with_` method returns a new builder
/// and leaves its receiver alone, and one builder can be built from any number
/// of times. It checks nothing. A dimension that is negative, infinite or not a
/// number is kept as given, and only the platform layer turns it down.
#[derive(Clone, Copy, Debug, PartialEq, Eq, Structural)]
pub struct WindowBuilder {
    width: Length,
    height: Length,
}

impl View for WindowBuilder {
    type V = Size;

    /// The size asked for.
    closed spec fn view(&self) -> Size {
        Size { width: self.width, height: self.height }
    }
}

impl WindowBuilder {
    /// The size a new builder asks for: 800 by 600.
    pub open spec fn default_size() -> Size {
        Size {
            width: Length { bits: DEFAULT_WIDTH_BITS },
            height: Length { bits: DEFAULT_HEIGHT_BITS },
        }
    }

    /// `size` with its width replaced.
    pub open spec fn width_set(size: Size, width: Length) -> Size {
        Size { width, height: size.height }
    }

    /// `size` with its height replaced.
    pub open spec fn height_set(size: Size, height: Length) -> Size {
        Size { width: size.width, height }
    }

    /// `size` with both dimensions replaced.
    pub open spec fn size_set(size: Size, width: Length, height: Length) -> Size {
        Size { width, height }
    }

    /// A builder that asks for the default size.
    pub fn new() -> (r: WindowBuilder)
        ensures
            r@ == Self::default_size(),
    {
        WindowBuilder {
            width: Length { bits: DEFAULT_WIDTH_BITS },
            height: Length { bits: DEFAULT_HEIGHT_BITS },
        }
    }

    /// This builder with its width replaced. The receiver is not changed.
    pub fn with_width(self, width: Length) -> (r: WindowBuilder)
        ensures
            r@ == Self::width_set(self@, width),
    {
        WindowBuilder { width, height: self.height }
    }

    /// This builder with its height replaced. The receiver is not changed.
    pub fn with_height(self, height: Length) -> (r: WindowBuilder)
        ensures
            r@ == Self::height_set(self@, height),
    {
        WindowBuilder { width: self.width, height }
    }

    /// This builder with both dimensions replaced. The receiver is not
    /// changed.
    pub fn with_size(self, width: Length, height: Length) -> (r: WindowBuilder)
        ensures
            r@ == Self::size_set(self@, width, height),
    {
        WindowBuilder { width, height }
    }

    /// The size asked for.
    pub fn size(&self) -> (r: Size)
        ensures
            r == self@,
    {
        Size { width: self.width, height: self.height }
    }

    /// Turns the platform layer's answer to this request into a window
    /// handle, or hands on the platform's error as it came.
    ///
    /// The platform layer is asked before this call, with [`Self::size`]; it
    /// may have clamped the size, so the window's state is the one it
    /// answered with.
    pub fn build(self, created: Result<(WindowId, WindowState), OSError>) -> (r: Result<
        Window,
        OSError,
    >)
        ensures
            Window::answers(created, r),
    {
        Window::open(created)
    }
}

/// A builder is what it asks for: two builders with the same view are equal.
pub proof fn lemma_view_decides_builder(a: WindowBuilder, b: WindowBuilder)
    requires
        a@ == b@,
    ensures
        a == b,
{
}

/// Setting a size, then the same width again, then the same height again,
/// gives the builder that setting the size alone gives, whatever was asked
/// for before and whatever the two dimensions are.
pub proof fn lemma_repeated_update_changes_nothing(
    once: WindowBuilder,
    again: WindowBuilder,
    start: Size,
    width: Length,
    height: Length,
)
    requires
        once@ == WindowBuilder::size_set(start, width, height),
        again@ == WindowBuilder::height_set(
            WindowBuilder::width_set(WindowBuilder::size_set(start, width, height), width),
            height,
        ),
    ensures
        again == once,
{
    lemma_view_decides_builder(again, once);
}

/// The default size is the pair of whole numbers 800 and 600.
pub proof fn lemma_default_size_is_800_by_600()
    ensures
        WindowBuilder::default_size().width.denotes(800),
        WindowBuilder::default_size().height.denotes(600),
{
    lemma_default_dimensions();
}

} // verus!
