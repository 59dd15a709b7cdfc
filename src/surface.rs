use vstd::prelude::*;

verus! {

/// Smallest width and height a presentable surface may have.
pub const MIN_EXTENT: u32 = 1;

/// The extent actually used for a requested drawable size: each dimension
/// is raised to at least one pixel.
pub open spec fn clamped_extent(size: [u32; 2]) -> [u32; 2] {
    [
        if size[0] < MIN_EXTENT { MIN_EXTENT } else { size[0] },
        if size[1] < MIN_EXTENT { MIN_EXTENT } else { size[1] },
    ]
}

/// Clamps a requested drawable size to the smallest extent a swapchain accepts.
pub fn surface_extent(size: [u32; 2]) -> (r: [u32; 2])
    ensures
        r == clamped_extent(size),
        r[0] >= 1 && r[1] >= 1,
{
    let w: u32 = if size[0] < MIN_EXTENT { MIN_EXTENT } else { size[0] };
    let h: u32 = if size[1] < MIN_EXTENT { MIN_EXTENT } else { size[1] };
    [w, h]
}

/// Sizes of the swapchain images and of the depth attachment, which are
/// always recreated together.
pub struct SurfaceTargets {
    swapchain_size: [u32; 2],
    depth_size: [u32; 2],
}

impl View for SurfaceTargets {
    type V = ([u32; 2], [u32; 2]);

    /// The swapchain size and the depth attachment size.
    closed spec fn view(&self) -> ([u32; 2], [u32; 2]) {
        (self.swapchain_size, self.depth_size)
    }
}

impl SurfaceTargets {
    /// Both targets match, and neither is empty.
    pub open spec fn wf(&self) -> bool {
        &&& self@.0 == self@.1
        &&& self@.0[0] >= 1
        &&& self@.0[1] >= 1
    }

    /// Targets for a drawable of the given size.
    pub fn new(size: [u32; 2]) -> (r: SurfaceTargets)
        ensures
            r.wf(),
            r@.0 == clamped_extent(size),
    {
        let extent = surface_extent(size);
        SurfaceTargets { swapchain_size: extent, depth_size: extent }
    }

    /// Records that both targets are recreated for a new drawable size, and
    /// returns the extent they are recreated at.
    pub fn resize(&mut self, size: [u32; 2]) -> (r: [u32; 2])
        ensures
            final(self).wf(),
            r == clamped_extent(size),
            final(self)@ == (r, r),
    {
        let extent = surface_extent(size);
        self.swapchain_size = extent;
        self.depth_size = extent;
        extent
    }

    /// Width and height of the swapchain images.
    pub fn swapchain_size(&self) -> (r: [u32; 2])
        ensures
            r == self@.0,
    {
        self.swapchain_size
    }

    /// Width and height of the depth attachment.
    pub fn depth_size(&self) -> (r: [u32; 2])
        ensures
            r == self@.1,
    {
        self.depth_size
    }
}

} // verus!
