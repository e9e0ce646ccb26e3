//! Data buffer and vertex-array ownership wrappers.
//!
//! A [`Buffer`] owns exactly one data buffer handle and is generic over
//! its [`BufferType`], so vertex data cannot be bound through the
//! element-index target or the other way round: the binding target is
//! fixed by the wrapper's static type, not checked at run time.  A
//! [`VertexArray`] owns one vertex-array handle and records the
//! attribute-binding operations that describe a vertex record to the
//! driver.  Every method takes the [`Driver`] capability object, so the
//! bind/use/unbind discipline is visible and checked at each call site.

use core::marker::PhantomData;
use vstd::prelude::*;

use crate::data::VertexData;
use crate::driver::{BufferKind, Driver, HandleKind, ModelState};
use crate::layout::AttribOp;

verus! {

/// A compile-time tag selecting the binding target a buffer uses.
pub trait BufferType {
    /// The target this tag stands for.
    spec fn spec_kind() -> BufferKind;

    /// Returns the target this tag stands for.
    fn kind() -> (k: BufferKind)
        ensures
            k == Self::spec_kind(),
    ;
}

/// The tag of buffers holding vertex data.
pub struct BufferTypeArray;

impl BufferType for BufferTypeArray {
    open spec fn spec_kind() -> BufferKind {
        BufferKind::Array
    }

    fn kind() -> BufferKind {
        BufferKind::Array
    }
}

/// The tag of buffers holding element indices.
pub struct BufferTypeElementArray;

impl BufferType for BufferTypeElementArray {
    open spec fn spec_kind() -> BufferKind {
        BufferKind::ElementArray
    }

    fn kind() -> BufferKind {
        BufferKind::ElementArray
    }
}

/// A buffer of vertex data.
pub type ArrayBuffer = Buffer<BufferTypeArray>;

/// A buffer of element indices.
pub type ElementArrayBuffer = Buffer<BufferTypeElementArray>;

/// Exclusive owner of one data buffer handle, tagged with its binding
/// target.
pub struct Buffer<B: BufferType> {
    handle: u32,
    marker: PhantomData<B>,
}

impl<B: BufferType> Buffer<B> {
    /// The owned handle.
    pub closed spec fn id(self) -> u32 {
        self.handle
    }

    /// Returns the owned handle, for driver-state queries.
    pub fn handle(&self) -> (r: u32)
        ensures
            r == self.id(),
    {
        self.handle
    }

    /// The owned handle is live in the given driver state, as a buffer.
    pub open spec fn is_live(self, s: ModelState) -> bool {
        s.is_kind(self.id(), HandleKind::Buffer)
    }

    /// Allocates one buffer handle and returns its owner.
    pub fn new(d: &mut Driver) -> (b: Buffer<B>)
        requires
            old(d)@.inv(),
            old(d)@.can_allocate(1),
        ensures
            final(d)@.inv(),
            b.id() == old(d)@.next_handle,
            b.is_live(final(d)@),
            !old(d)@.handles.contains_key(b.id()),
            final(d)@ == (ModelState {
                handles: old(d)@.handles.insert(b.id(), HandleKind::Buffer),
                next_handle: (b.id() + 1) as u32,
                allocations: (old(d)@.allocations + 1) as u64,
                ..old(d)@
            }),
    {
        let handle = d.create_buffer();
        Buffer { handle, marker: PhantomData }
    }

    /// Makes the owned handle current for this buffer's target.
    pub fn bind(&self, d: &mut Driver)
        requires
            old(d)@.inv(),
            self.is_live(old(d)@),
        ensures
            final(d)@.inv(),
            final(d)@ == old(d)@.with_buffer_binding(B::spec_kind(), self.id()),
            final(d)@.buffer_binding(B::spec_kind()) == self.id(),
    {
        d.bind_buffer(B::kind(), self.handle);
    }

    /// Resets this buffer's target to "none".
    pub fn unbind(&self, d: &mut Driver)
        requires
            old(d)@.inv(),
        ensures
            final(d)@.inv(),
            final(d)@ == old(d)@.with_buffer_binding(B::spec_kind(), 0),
            final(d)@.buffer_binding(B::spec_kind()) == 0,
    {
        d.bind_buffer(B::kind(), 0);
    }

    /// Uploads an immutable snapshot of `data` into this buffer, which
    /// must be bound to its target.  The driver owns the bytes after the
    /// call; the wrapper retains nothing, and the driver-reported size of
    /// the buffer becomes exactly `data.len()` times the record size.
    pub fn static_draw_data<T: VertexData>(&self, d: &mut Driver, data: &[T])
        requires
            old(d)@.inv(),
            old(d)@.buffer_binding(B::spec_kind()) == self.id(),
            self.is_live(old(d)@),
            data@.len() * T::spec_byte_size() <= u64::MAX,
        ensures
            final(d)@.inv(),
            final(d)@ == (ModelState {
                buffer_sizes: old(d)@.buffer_sizes.insert(
                    self.id(),
                    (data@.len() * T::spec_byte_size()) as u64,
                ),
                ..old(d)@
            }),
            final(d)@.buffer_sizes[self.id()] == data@.len() * T::spec_byte_size(),
    {
        let elem = T::byte_size();
        let count = data.len() as u64;
        proof {
            assert(count * elem == data@.len() * T::spec_byte_size()) by (nonlinear_arith)
                requires
                    count == data@.len() && elem == T::spec_byte_size(),
            ;
        }
        let len = count * elem;
        d.buffer_data(B::kind(), len);
    }

    /// Releases the owned handle.  Consuming the wrapper here is the
    /// scope-exit of the exclusive owner: the handle leaves any binding
    /// it occupied and no second release is possible.
    pub fn delete(self, d: &mut Driver)
        requires
            old(d)@.inv(),
            self.is_live(old(d)@),
        ensures
            final(d)@.inv(),
            final(d)@ == old(d)@.with_deleted(self.id()),
            !final(d)@.handles.contains_key(self.id()),
    {
        d.delete(self.handle);
    }
}

/// Exclusive owner of one vertex-array handle.
pub struct VertexArray {
    handle: u32,
}

impl VertexArray {
    /// The owned handle.
    pub closed spec fn id(self) -> u32 {
        self.handle
    }

    /// Returns the owned handle, for driver-state queries.
    pub fn handle(&self) -> (r: u32)
        ensures
            r == self.id(),
    {
        self.handle
    }

    /// The owned handle is live in the given driver state, as a vertex
    /// array.
    pub open spec fn is_live(self, s: ModelState) -> bool {
        s.is_kind(self.id(), HandleKind::VertexArray)
    }

    /// Allocates one vertex-array handle and returns its owner; the
    /// recorded attribute configuration starts empty.
    pub fn new(d: &mut Driver) -> (v: VertexArray)
        requires
            old(d)@.inv(),
            old(d)@.can_allocate(1),
        ensures
            final(d)@.inv(),
            v.id() == old(d)@.next_handle,
            v.is_live(final(d)@),
            !old(d)@.handles.contains_key(v.id()),
            final(d)@ == (ModelState {
                handles: old(d)@.handles.insert(v.id(), HandleKind::VertexArray),
                next_handle: (v.id() + 1) as u32,
                allocations: (old(d)@.allocations + 1) as u64,
                vao_attribs: old(d)@.vao_attribs.insert(v.id(), Seq::empty()),
                ..old(d)@
            }),
    {
        let handle = d.create_vertex_array();
        VertexArray { handle }
    }

    /// Makes the owned handle the current vertex array.
    pub fn bind(&self, d: &mut Driver)
        requires
            old(d)@.inv(),
            self.is_live(old(d)@),
        ensures
            final(d)@.inv(),
            final(d)@ == (ModelState { vertex_array: self.id(), ..old(d)@ }),
    {
        d.bind_vertex_array(self.handle);
    }

    /// Resets the vertex-array binding to "none".
    pub fn unbind(&self, d: &mut Driver)
        requires
            old(d)@.inv(),
        ensures
            final(d)@.inv(),
            final(d)@ == (ModelState { vertex_array: 0u32, ..old(d)@ }),
    {
        d.bind_vertex_array(0);
    }

    /// Records the attribute-binding operations of a vertex record in
    /// this vertex array, which must be bound, with a vertex-data buffer
    /// bound for the offsets to point into.
    pub fn vertex_attrib_pointers(&self, d: &mut Driver, ops: Vec<AttribOp>)
        requires
            old(d)@.inv(),
            old(d)@.vertex_array == self.id(),
            self.is_live(old(d)@),
            old(d)@.array_buffer != 0,
        ensures
            final(d)@.inv(),
            final(d)@ == (ModelState {
                vao_attribs: old(d)@.vao_attribs.insert(self.id(), ops@),
                ..old(d)@
            }),
    {
        d.set_vertex_attribs(ops);
    }

    /// Releases the owned handle; see [`Buffer::delete`].
    pub fn delete(self, d: &mut Driver)
        requires
            old(d)@.inv(),
            self.is_live(old(d)@),
        ensures
            final(d)@.inv(),
            final(d)@ == old(d)@.with_deleted(self.id()),
            !final(d)@.handles.contains_key(self.id()),
    {
        d.delete(self.handle);
    }
}

/// Binding a buffer to a target and then unbinding leaves that target in
/// the "none" state, and touches nothing else: the pair acts on the
/// state exactly as unbinding alone does, whichever buffer was bound in
/// between and whatever was bound before.
pub proof fn lemma_bind_unbind_clears_target(s: ModelState, kind: BufferKind, h: u32)
    ensures
        s.with_buffer_binding(kind, h).with_buffer_binding(kind, 0) == s.with_buffer_binding(
            kind,
            0,
        ),
        s.with_buffer_binding(kind, h).with_buffer_binding(kind, 0).buffer_binding(kind) == 0,
        s.buffer_binding(kind) == 0 ==> s.with_buffer_binding(kind, h).with_buffer_binding(kind, 0)
            == s,
{
    match kind {
        BufferKind::Array => {
            assert(s.with_buffer_binding(kind, h).with_buffer_binding(kind, 0)
                =~~= s.with_buffer_binding(kind, 0));
            if s.buffer_binding(kind) == 0 {
                assert(s.with_buffer_binding(kind, 0) =~~= s);
            }
        },
        BufferKind::ElementArray => {
            assert(s.with_buffer_binding(kind, h).with_buffer_binding(kind, 0)
                =~~= s.with_buffer_binding(kind, 0));
            if s.buffer_binding(kind) == 0 {
                assert(s.with_buffer_binding(kind, 0) =~~= s);
            }
        },
    }
}

/// Binding one buffer target never disturbs the other target.
pub proof fn lemma_bind_keeps_other_target(s: ModelState, kind: BufferKind, other: BufferKind, h: u32)
    requires
        kind != other,
    ensures
        s.with_buffer_binding(kind, h).buffer_binding(other) == s.buffer_binding(other),
{
}

/// Uploading `count` records of `size` bytes each and then reading the
/// driver-reported size of that buffer back yields exactly
/// `count * size`.
pub proof fn lemma_upload_read_back(s: ModelState, h: u32, count: int, size: int)
    requires
        0 <= count * size <= u64::MAX,
    ensures
        (ModelState {
            buffer_sizes: s.buffer_sizes.insert(h, (count * size) as u64),
            ..s
        }).buffer_sizes.contains_key(h),
        (ModelState {
            buffer_sizes: s.buffer_sizes.insert(h, (count * size) as u64),
            ..s
        }).buffer_sizes[h] == count * size,
{
}

} // verus!
