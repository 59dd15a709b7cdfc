use gear::surface::surface_extent;
use gear::SurfaceTargets;

#[test]
fn resize_to_zero_clamps_to_one_pixel() {
    let mut targets = SurfaceTargets::new([640, 480]);
    assert_eq!(targets.resize([0, 0]), [1, 1]);
    assert_eq!(targets.swapchain_size(), [1, 1]);
    assert_eq!(targets.depth_size(), [1, 1]);
}

#[test]
fn resize_to_one_pixel_keeps_it() {
    let mut targets = SurfaceTargets::new([640, 480]);
    assert_eq!(targets.resize([1, 1]), [1, 1]);
    assert_eq!(targets.swapchain_size(), targets.depth_size());
}

#[test]
fn resize_clamps_each_dimension_separately() {
    let mut targets = SurfaceTargets::new([0, 0]);
    assert_eq!(targets.swapchain_size(), [1, 1]);
    assert_eq!(targets.resize([800, 0]), [800, 1]);
    assert_eq!(targets.depth_size(), [800, 1]);
    assert_eq!(targets.resize([0, 600]), [1, 600]);
    assert_eq!(targets.resize([1920, 1080]), [1920, 1080]);
    assert_eq!(targets.swapchain_size(), [1920, 1080]);
    assert_eq!(targets.depth_size(), [1920, 1080]);
}

#[test]
fn surface_extent_of_large_sizes_is_unchanged() {
    assert_eq!(surface_extent([u32::MAX, 2]), [u32::MAX, 2]);
    assert_eq!(surface_extent([0, u32::MAX]), [1, u32::MAX]);
}
