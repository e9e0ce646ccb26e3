//! Off-screen render targets: construction, completeness, resize.

use render_gl::driver::Driver;
use render_gl::frame_buffer::FrameBuffer;

/// A fresh target is complete right after construction, and binds and
/// detaches like any other shared binding.
#[test]
fn new_target_is_complete() {
    let mut d = Driver::new();
    let fb = FrameBuffer::new(&mut d, 800, 600);
    assert!(fb.is_complete(&d));
    assert_eq!(fb.get_width(), 800);
    assert_eq!(fb.get_height(), 600);
    assert_eq!(d.allocation_count(), 3);
    assert_eq!(d.bound_framebuffer(), 0);
    fb.bind(&mut d);
    assert_eq!(d.bound_framebuffer(), fb.fbo_handle());
    fb.detach(&mut d);
    assert_eq!(d.bound_framebuffer(), 0);
}

/// Resizing rebuilds the triple: the new target is complete again, and
/// the three original handles are all released, so nothing leaks.
#[test]
fn resize_is_complete_and_releases_the_old_triple() {
    let mut d = Driver::new();
    let mut fb = FrameBuffer::new(&mut d, 800, 600);
    assert!(fb.is_complete(&d));
    let old_fbo = fb.fbo_handle();
    let old_tex = fb.texture_handle();
    let old_rbo = fb.rbo_handle();

    fb.resize(&mut d, 400, 300);
    assert!(fb.is_complete(&d));
    assert_eq!(fb.get_width(), 400);
    assert_eq!(fb.get_height(), 300);

    // The allocation counter shows three new handles and three releases:
    // the original triple is gone.
    assert_eq!(d.allocation_count(), 6);
    assert_eq!(d.release_count(), 3);
    assert!(!d.handle_is_live(old_fbo));
    assert!(!d.handle_is_live(old_tex));
    assert!(!d.handle_is_live(old_rbo));
    assert!(d.handle_is_live(fb.fbo_handle()));
    assert!(d.handle_is_live(fb.texture_handle()));
    assert!(d.handle_is_live(fb.rbo_handle()));
}

/// Releasing a target releases all three handles together.
#[test]
fn delete_releases_all_three_handles() {
    let mut d = Driver::new();
    let fb = FrameBuffer::new(&mut d, 64, 64);
    let fbo = fb.fbo_handle();
    let tex = fb.texture_handle();
    let rbo = fb.rbo_handle();
    fb.delete(&mut d);
    assert!(!d.handle_is_live(fbo));
    assert!(!d.handle_is_live(tex));
    assert!(!d.handle_is_live(rbo));
    assert_eq!(d.allocation_count(), 3);
    assert_eq!(d.release_count(), 3);
}
