use vstd::prelude::*;

verus! {

/// A change of the window that the application is told about.
#[derive(Clone, Copy, Debug, PartialEq, Eq)]
pub enum WindowEvent {
    /// The drawable area now has this width and height in pixels.
    Resized([u32; 2]),
    /// The window's top-left corner now sits at this screen position.
    Moved([i32; 2]),
}

} // verus!
