//! Buffers, vertex arrays, and the driver's binding state.

use render_gl::buffer::{ArrayBuffer, ElementArrayBuffer, VertexArray};
use render_gl::data::int8;
use render_gl::driver::{BufferKind, Driver};
use render_gl::layout::{vertex_attrib_ops, FieldSpec};
use render_gl::viewport::Viewport;

/// Binding and unbinding a vertex-data buffer leaves its target in the
/// "none" state and never touches the element-index target.
#[test]
fn bind_unbind_array_target() {
    let mut d = Driver::new();
    let vbo = ArrayBuffer::new(&mut d);
    assert_eq!(d.bound_buffer(BufferKind::Array), 0);
    vbo.bind(&mut d);
    assert_eq!(d.bound_buffer(BufferKind::Array), vbo.handle());
    assert_eq!(d.bound_buffer(BufferKind::ElementArray), 0);
    vbo.unbind(&mut d);
    assert_eq!(d.bound_buffer(BufferKind::Array), 0);
    assert_eq!(d.bound_buffer(BufferKind::ElementArray), 0);
}

/// The same for an element-index buffer and its own target.
#[test]
fn bind_unbind_element_target() {
    let mut d = Driver::new();
    let ebo = ElementArrayBuffer::new(&mut d);
    ebo.bind(&mut d);
    assert_eq!(d.bound_buffer(BufferKind::ElementArray), ebo.handle());
    assert_eq!(d.bound_buffer(BufferKind::Array), 0);
    ebo.unbind(&mut d);
    assert_eq!(d.bound_buffer(BufferKind::ElementArray), 0);
}

/// Uploading records and reading the driver-reported size back yields
/// record count times record byte size.
#[test]
fn static_draw_data_round_trip() {
    let mut d = Driver::new();
    let vbo = ArrayBuffer::new(&mut d);
    let records = [int8::new(1), int8::new(2), int8::new(3)];
    vbo.bind(&mut d);
    vbo.static_draw_data(&mut d, &records);
    vbo.unbind(&mut d);
    assert_eq!(d.buffer_size(vbo.handle()), Some(3));

    let ebo = ElementArrayBuffer::new(&mut d);
    let indices: [u32; 6] = [0, 1, 2, 0, 2, 3];
    ebo.bind(&mut d);
    ebo.static_draw_data(&mut d, &indices);
    ebo.unbind(&mut d);
    assert_eq!(d.buffer_size(ebo.handle()), Some(24));
}

/// A buffer that never saw an upload reports no size.
#[test]
fn fresh_buffer_has_no_size() {
    let mut d = Driver::new();
    let vbo = ArrayBuffer::new(&mut d);
    assert_eq!(d.buffer_size(vbo.handle()), None);
}

/// A vertex array records the attribute-binding operations applied while
/// it is bound, and deleting a buffer clears the binding it occupied.
#[test]
fn vertex_array_records_attribs() {
    let mut d = Driver::new();
    let vbo = ArrayBuffer::new(&mut d);
    let vao = VertexArray::new(&mut d);
    let fields = vec![FieldSpec {
        location: 0,
        format: <int8 as render_gl::data::AttribLayout>::format(),
    }];
    let ops = vertex_attrib_ops(&fields, 1).unwrap();
    vao.bind(&mut d);
    vbo.bind(&mut d);
    vao.vertex_attrib_pointers(&mut d, ops);
    vbo.unbind(&mut d);
    vao.unbind(&mut d);
    assert_eq!(d.bound_vertex_array(), 0);

    vbo.bind(&mut d);
    let b = vbo.handle();
    vbo.delete(&mut d);
    assert!(!d.handle_is_live(b));
    assert_eq!(d.bound_buffer(BufferKind::Array), 0);
}

/// Allocation and release counters follow creates and deletes.
#[test]
fn counters_follow_lifecycle() {
    let mut d = Driver::new();
    assert_eq!(d.allocation_count(), 0);
    assert_eq!(d.release_count(), 0);
    let vbo = ArrayBuffer::new(&mut d);
    let vao = VertexArray::new(&mut d);
    assert_eq!(d.allocation_count(), 2);
    assert!(d.handle_is_live(vbo.handle()));
    assert!(d.handle_is_live(vao.handle()));
    vao.delete(&mut d);
    vbo.delete(&mut d);
    assert_eq!(d.allocation_count(), 2);
    assert_eq!(d.release_count(), 2);
}

/// The viewport rectangle reaches the driver on refresh.
#[test]
fn viewport_refresh() {
    let mut d = Driver::new();
    let mut vp = Viewport::for_window(640, 480);
    assert_eq!(vp.x, 0);
    assert_eq!(vp.y, 0);
    assert_eq!(vp.w, 640);
    vp.refresh(&mut d);
    assert_eq!(d.viewport_rect(), (0, 0, 640, 480));
    vp.update_size(800, 600);
    assert_eq!(vp.w, 800);
    assert_eq!(vp.h, 600);
    vp.refresh(&mut d);
    assert_eq!(d.viewport_rect(), (0, 0, 800, 600));
}
