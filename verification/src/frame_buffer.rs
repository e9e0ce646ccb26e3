//! Off-screen render targets.
//!
//! A [`FrameBuffer`] owns a framebuffer handle together with its color
//! texture and its depth renderbuffer: the three are built together, the
//! result is verified complete before it is handed out, and they are
//! released together.  Resizing is destructive: the old triple is fully
//! released and a fresh triple is built at the new size, so no handle
//! leaks across a resize.

use vstd::prelude::*;

use crate::driver::{Driver, FbAttach, HandleKind, ModelState, RbStorage, TexFormat, TexStorage};

verus! {

/// Exclusive owner of a framebuffer handle, its color texture, and its
/// depth renderbuffer.
pub struct FrameBuffer {
    fbo: u32,
    texture: u32,
    rbo: u32,
    width: i32,
    height: i32,
}

impl FrameBuffer {
    /// The owned framebuffer handle.
    pub closed spec fn fbo_id(self) -> u32 {
        self.fbo
    }

    /// The owned color texture handle.
    pub closed spec fn texture_id(self) -> u32 {
        self.texture
    }

    /// The owned depth renderbuffer handle.
    pub closed spec fn rbo_id(self) -> u32 {
        self.rbo
    }

    /// The target's width in pixels.
    pub closed spec fn spec_width(self) -> i32 {
        self.width
    }

    /// The target's height in pixels.
    pub closed spec fn spec_height(self) -> i32 {
        self.height
    }

    /// Returns the target's width in pixels.
    pub fn get_width(&self) -> (r: i32)
        ensures
            r == self.spec_width(),
    {
        self.width
    }

    /// Returns the target's height in pixels.
    pub fn get_height(&self) -> (r: i32)
        ensures
            r == self.spec_height(),
    {
        self.height
    }

    /// Returns the owned framebuffer handle, for driver-state queries.
    pub fn fbo_handle(&self) -> (r: u32)
        ensures
            r == self.fbo_id(),
    {
        self.fbo
    }

    /// Returns the owned color texture handle, for driver-state queries.
    pub fn texture_handle(&self) -> (r: u32)
        ensures
            r == self.texture_id(),
    {
        self.texture
    }

    /// Returns the owned depth renderbuffer handle, for driver-state
    /// queries.
    pub fn rbo_handle(&self) -> (r: u32)
        ensures
            r == self.rbo_id(),
    {
        self.rbo
    }

    /// All three owned handles are live in the given driver state, with
    /// the color texture and depth renderbuffer attached to the
    /// framebuffer and their storage in place.
    pub open spec fn is_live(self, s: ModelState) -> bool {
        &&& s.is_kind(self.fbo_id(), HandleKind::Framebuffer)
        &&& s.is_kind(self.texture_id(), HandleKind::Texture)
        &&& s.is_kind(self.rbo_id(), HandleKind::Renderbuffer)
        &&& s.attachments.contains_key(self.fbo_id())
        &&& s.attachments[self.fbo_id()] == (FbAttach {
            color: self.texture_id(),
            depth: self.rbo_id(),
        })
        &&& s.textures.contains_key(self.texture_id())
        &&& s.rb_storage.contains_key(self.rbo_id())
    }

    /// The driver state after a fresh triple was built at the given
    /// size: framebuffer `f`, color texture `t` and depth renderbuffer
    /// `rb` are allocated and wired together, and the texture,
    /// renderbuffer and framebuffer targets are left unbound.
    pub open spec fn built(s: ModelState, f: u32, t: u32, rb: u32, width: usize, height: usize) -> ModelState {
        ModelState {
            handles: s.handles.insert(f, HandleKind::Framebuffer).insert(
                t,
                HandleKind::Texture,
            ).insert(rb, HandleKind::Renderbuffer),
            next_handle: (s.next_handle + 3) as u32,
            allocations: (s.allocations + 3) as u64,
            texture_2d: 0,
            renderbuffer: 0,
            framebuffer: 0,
            textures: s.textures.insert(
                t,
                (TexStorage { format: TexFormat::Rgb, width, height, mipmap: false }),
            ),
            rb_storage: s.rb_storage.insert(rb, (RbStorage { width, height })),
            attachments: s.attachments.insert(f, (FbAttach { color: t, depth: rb })),
            ..s
        }
    }

    /// Builds one complete triple: allocates the framebuffer, gives it a
    /// color texture sized to the target and a depth renderbuffer,
    /// verifies completeness, and unbinds everything again.
    fn build(d: &mut Driver, width: i32, height: i32) -> (fb: FrameBuffer)
        requires
            old(d)@.inv(),
            old(d)@.can_allocate(3),
            width >= 0,
            height >= 0,
        ensures
            final(d)@.inv(),
            fb.fbo_id() == old(d)@.next_handle,
            fb.texture_id() == old(d)@.next_handle + 1,
            fb.rbo_id() == old(d)@.next_handle + 2,
            fb.spec_width() == width,
            fb.spec_height() == height,
            fb.is_live(final(d)@),
            final(d)@.fb_complete(fb.fbo_id()),
            final(d)@ == FrameBuffer::built(
                old(d)@,
                fb.fbo_id(),
                fb.texture_id(),
                fb.rbo_id(),
                width as usize,
                height as usize,
            ),
    {
        let f = d.create_framebuffer();
        d.bind_framebuffer(f);
        let t = d.create_texture();
        d.bind_texture(t);
        d.tex_image_2d(TexFormat::Rgb, width as usize, height as usize);
        d.bind_texture(0);
        d.framebuffer_texture_2d(t);
        let rb = d.create_renderbuffer();
        d.bind_renderbuffer(rb);
        d.renderbuffer_storage(width as usize, height as usize);
        d.framebuffer_renderbuffer(rb);
        let complete = d.check_framebuffer_status();
        assert(complete);
        d.bind_renderbuffer(0);
        d.bind_framebuffer(0);
        proof {
            assert(final(d)@ =~~= FrameBuffer::built(
                old(d)@,
                f,
                t,
                rb,
                width as usize,
                height as usize,
            ));
        }
        FrameBuffer { fbo: f, texture: t, rbo: rb, width, height }
    }

    /// Builds a complete off-screen render target of the given size.
    /// Exactly three handles are allocated — the framebuffer, its color
    /// texture, and its depth renderbuffer — and the result passes the
    /// driver's completeness check before it is returned.
    pub fn new(d: &mut Driver, width: i32, height: i32) -> (fb: FrameBuffer)
        requires
            old(d)@.inv(),
            old(d)@.can_allocate(3),
            width >= 0,
            height >= 0,
        ensures
            final(d)@.inv(),
            fb.fbo_id() == old(d)@.next_handle,
            fb.texture_id() == old(d)@.next_handle + 1,
            fb.rbo_id() == old(d)@.next_handle + 2,
            fb.spec_width() == width,
            fb.spec_height() == height,
            fb.is_live(final(d)@),
            final(d)@.fb_complete(fb.fbo_id()),
            final(d)@ == FrameBuffer::built(
                old(d)@,
                fb.fbo_id(),
                fb.texture_id(),
                fb.rbo_id(),
                width as usize,
                height as usize,
            ),
    {
        FrameBuffer::build(d, width, height)
    }

    /// Redirects subsequent draw output to this target.
    pub fn bind(&self, d: &mut Driver)
        requires
            old(d)@.inv(),
            self.is_live(old(d)@),
        ensures
            final(d)@.inv(),
            final(d)@ == (ModelState { framebuffer: self.fbo_id(), ..old(d)@ }),
    {
        d.bind_framebuffer(self.fbo);
    }

    /// Redirects subsequent draw output back to the default framebuffer.
    pub fn detach(&self, d: &mut Driver)
        requires
            old(d)@.inv(),
        ensures
            final(d)@.inv(),
            final(d)@ == (ModelState { framebuffer: 0u32, ..old(d)@ }),
    {
        d.bind_framebuffer(0);
    }

    /// Whether this target currently passes the driver's completeness
    /// check.
    pub fn is_complete(&self, d: &Driver) -> (r: bool)
        ensures
            r == d@.fb_complete(self.fbo_id()),
    {
        d.framebuffer_complete(self.fbo)
    }

    /// Rebuilds the target at a new size.  There is no in-place resize
    /// of driver images: the old framebuffer, color texture and depth
    /// renderbuffer are all released, and a fresh complete triple takes
    /// their place, so exactly three handles are released and three
    /// allocated.
    pub fn resize(&mut self, d: &mut Driver, width: i32, height: i32)
        requires
            old(d)@.inv(),
            old(self).is_live(old(d)@),
            old(d)@.can_allocate(3),
            width >= 0,
            height >= 0,
        ensures
            final(d)@.inv(),
            final(self).fbo_id() == old(d)@.next_handle,
            final(self).texture_id() == old(d)@.next_handle + 1,
            final(self).rbo_id() == old(d)@.next_handle + 2,
            final(self).spec_width() == width,
            final(self).spec_height() == height,
            final(self).is_live(final(d)@),
            final(d)@.fb_complete(final(self).fbo_id()),
            !final(d)@.handles.contains_key(old(self).fbo_id()),
            !final(d)@.handles.contains_key(old(self).texture_id()),
            !final(d)@.handles.contains_key(old(self).rbo_id()),
            final(d)@.releases == old(d)@.releases + 3,
            final(d)@.allocations == old(d)@.allocations + 3,
            final(d)@ == FrameBuffer::built(
                old(d)@.with_deleted(old(self).fbo_id()).with_deleted(
                    old(self).texture_id(),
                ).with_deleted(old(self).rbo_id()),
                final(self).fbo_id(),
                final(self).texture_id(),
                final(self).rbo_id(),
                width as usize,
                height as usize,
            ),
    {
        d.delete(self.fbo);
        d.delete(self.texture);
        d.delete(self.rbo);
        *self = FrameBuffer::build(d, width, height);
    }

    /// Releases all three owned handles together: the framebuffer, its
    /// color texture, and its depth renderbuffer.
    pub fn delete(self, d: &mut Driver)
        requires
            old(d)@.inv(),
            self.is_live(old(d)@),
        ensures
            final(d)@.inv(),
            final(d)@ == old(d)@.with_deleted(self.fbo_id()).with_deleted(
                self.texture_id(),
            ).with_deleted(self.rbo_id()),
            !final(d)@.handles.contains_key(self.fbo_id()),
            !final(d)@.handles.contains_key(self.texture_id()),
            !final(d)@.handles.contains_key(self.rbo_id()),
            final(d)@.releases == old(d)@.releases + 3,
            final(d)@.allocations == old(d)@.allocations,
    {
        d.delete(self.fbo);
        d.delete(self.texture);
        d.delete(self.rbo);
    }
}

} // verus!
