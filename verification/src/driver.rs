//! The driver capability object.
//!
//! The graphics API is a stateful, handle-based service: handles are
//! allocated and released, and per-target binding points select which
//! handle subsequent commands act on.  [`Driver`] models that service as
//! an explicit object that every resource wrapper takes by reference, so
//! the process-wide mutable binding state is visible at each call site and
//! the bind/use/unbind discipline can be stated and checked.  The
//! observable state is the spec-level [`ModelState`]; every operation says
//! exactly which part of it changes.

use std::collections::HashMap;
use vstd::prelude::*;

use crate::layout::AttribOp;

verus! {

broadcast use vstd::std_specs::hash::group_hash_axioms, vstd::set::group_set_axioms;

/// Which binding target a data buffer uses: vertex data or element
/// indices.  Fixed by a buffer wrapper's static type.
#[derive(Clone, Copy, Debug, PartialEq, Eq, Structural)]
pub enum BufferKind {
    Array,
    ElementArray,
}

/// The resource kind a native handle was allocated for.  At most one
/// owning wrapper exists per handle, and the kind never changes.
#[derive(Clone, Copy, Debug, PartialEq, Eq, Structural)]
pub enum HandleKind {
    Buffer,
    VertexArray,
    Shader,
    Program,
    Texture,
    Renderbuffer,
    Framebuffer,
}

/// The pipeline stage a shader is compiled for.
#[derive(Clone, Copy, Debug, PartialEq, Eq, Structural)]
pub enum ShaderKind {
    Vertex,
    Fragment,
}

/// The upload path a texture's storage was created through.
#[derive(Clone, Copy, Debug, PartialEq, Eq, Structural)]
pub enum TexFormat {
    Rgb,
    Rgba,
}

/// The storage a texture handle currently holds.
#[derive(Clone, Copy, Debug, PartialEq, Eq, Structural)]
pub struct TexStorage {
    pub format: TexFormat,
    pub width: usize,
    pub height: usize,
    /// Whether mip levels have been generated for the storage.
    pub mipmap: bool,
}

/// The storage a renderbuffer handle currently holds.
#[derive(Clone, Copy, Debug, PartialEq, Eq, Structural)]
pub struct RbStorage {
    pub width: usize,
    pub height: usize,
}

/// The attachments of a framebuffer handle; zero means "none attached".
#[derive(Clone, Copy, Debug, PartialEq, Eq, Structural)]
pub struct FbAttach {
    pub color: u32,
    pub depth: u32,
}

/// What the driver records about one shader program.
pub struct ProgInfo {
    pub linked: bool,
    /// Handles of the stages currently attached, in attach order.
    pub attached: Vec<u32>,
    /// Handles of the stages that were attached when the program was
    /// last linked; empty while it was never linked.
    pub linked_with: Vec<u32>,
    /// Names of the program's active uniforms, without duplicates.
    pub uniforms: Vec<String>,
}

/// The spec-level image of one program's record.
#[verifier::ext_equal]
pub struct ProgModel {
    pub linked: bool,
    pub attached: Seq<u32>,
    pub linked_with: Seq<u32>,
    pub uniforms: Seq<Seq<char>>,
}

impl View for ProgInfo {
    type V = ProgModel;

    open spec fn view(&self) -> ProgModel {
        ProgModel {
            linked: self.linked,
            attached: self.attached@,
            linked_with: self.linked_with@,
            uniforms: Seq::new(self.uniforms@.len(), |i: int| self.uniforms@[i]@),
        }
    }
}

/// The observable state of the modelled driver.
#[verifier::ext_equal]
pub struct ModelState {
    /// Every live handle and the resource kind it was allocated for.
    pub handles: Map<u32, HandleKind>,
    /// The next handle value to be issued; handles are never reused.
    pub next_handle: u32,
    /// How many handles have been allocated over the driver's lifetime.
    pub allocations: u64,
    /// How many handles have been released over the driver's lifetime.
    pub releases: u64,
    /// The buffer bound to the vertex-data target; zero means none.
    pub array_buffer: u32,
    /// The buffer bound to the element-index target; zero means none.
    pub element_array_buffer: u32,
    /// The bound vertex array; zero means none.
    pub vertex_array: u32,
    /// The bound texture; zero means none.
    pub texture_2d: u32,
    /// The bound renderbuffer; zero means none.
    pub renderbuffer: u32,
    /// The bound framebuffer; zero means the default framebuffer.
    pub framebuffer: u32,
    /// The program installed for drawing; zero means none.
    pub program: u32,
    /// The byte size of the data each buffer handle currently stores.
    pub buffer_sizes: Map<u32, u64>,
    /// The attribute-binding operations recorded in each vertex array.
    pub vao_attribs: Map<u32, Seq<AttribOp>>,
    /// The compiled stage kind of each shader handle.
    pub shaders: Map<u32, ShaderKind>,
    /// The record the driver keeps for each program handle.
    pub programs: Map<u32, ProgModel>,
    /// How many uniform values have been written overall.
    pub uniform_writes: u64,
    /// The storage of each texture handle that has one.
    pub textures: Map<u32, TexStorage>,
    /// The storage of each renderbuffer handle that has one.
    pub rb_storage: Map<u32, RbStorage>,
    /// The attachments of each framebuffer handle.
    pub attachments: Map<u32, FbAttach>,
    /// The viewport rectangle: x, y, width, height.
    pub viewport: (i32, i32, i32, i32),
}

impl ModelState {
    /// The state of a freshly created driver: no handles, nothing bound.
    pub open spec fn init() -> ModelState {
        ModelState {
            handles: Map::empty(),
            next_handle: 1,
            allocations: 0,
            releases: 0,
            array_buffer: 0,
            element_array_buffer: 0,
            vertex_array: 0,
            texture_2d: 0,
            renderbuffer: 0,
            framebuffer: 0,
            program: 0,
            buffer_sizes: Map::empty(),
            vao_attribs: Map::empty(),
            shaders: Map::empty(),
            programs: Map::empty(),
            uniform_writes: 0,
            textures: Map::empty(),
            rb_storage: Map::empty(),
            attachments: Map::empty(),
            viewport: (0, 0, 0, 0),
        }
    }

    /// Handle `h` is live and was allocated for kind `k`.
    pub open spec fn is_kind(self, h: u32, k: HandleKind) -> bool {
        self.handles.contains_key(h) && self.handles[h] == k
    }

    /// The handle bound to the given buffer target.
    pub open spec fn buffer_binding(self, kind: BufferKind) -> u32 {
        match kind {
            BufferKind::Array => self.array_buffer,
            BufferKind::ElementArray => self.element_array_buffer,
        }
    }

    /// How many handles are currently live.
    pub open spec fn live_handles(self) -> nat {
        self.handles.dom().len()
    }

    /// `n` more handles can still be allocated.
    pub open spec fn can_allocate(self, n: u32) -> bool {
        self.next_handle + n <= u32::MAX
    }

    /// A framebuffer is complete when a color texture with storage and a
    /// depth renderbuffer with storage are both attached.
    pub open spec fn fb_complete(self, f: u32) -> bool {
        &&& self.attachments.contains_key(f)
        &&& self.textures.contains_key(self.attachments[f].color)
        &&& self.attachments[f].color != 0
        &&& self.rb_storage.contains_key(self.attachments[f].depth)
        &&& self.attachments[f].depth != 0
    }

    /// The same state with the given buffer target rebound.
    pub open spec fn with_buffer_binding(self, kind: BufferKind, h: u32) -> ModelState {
        match kind {
            BufferKind::Array => ModelState { array_buffer: h, ..self },
            BufferKind::ElementArray => ModelState { element_array_buffer: h, ..self },
        }
    }

    /// The same state after handle `h` was released: it is gone from the
    /// handle table and from every per-kind record, any binding it
    /// occupied is cleared, and the release counter advances.
    pub open spec fn with_deleted(self, h: u32) -> ModelState {
        ModelState {
            handles: self.handles.remove(h),
            releases: (self.releases + 1) as u64,
            array_buffer: clear_binding(self.array_buffer, h),
            element_array_buffer: clear_binding(self.element_array_buffer, h),
            vertex_array: clear_binding(self.vertex_array, h),
            texture_2d: clear_binding(self.texture_2d, h),
            renderbuffer: clear_binding(self.renderbuffer, h),
            framebuffer: clear_binding(self.framebuffer, h),
            program: clear_binding(self.program, h),
            buffer_sizes: self.buffer_sizes.remove(h),
            vao_attribs: self.vao_attribs.remove(h),
            shaders: self.shaders.remove(h),
            programs: self.programs.remove(h),
            textures: self.textures.remove(h),
            rb_storage: self.rb_storage.remove(h),
            attachments: self.attachments.remove(h),
            ..self
        }
    }

    /// Internal consistency of the driver state: every binding names a
    /// live handle of the right kind, every per-kind record belongs to a
    /// live handle of that kind, handles are nonzero and below the issue
    /// counter, and the lifetime counters account for the live handles.
    pub open spec fn inv(self) -> bool {
        &&& (self.array_buffer == 0 || self.is_kind(self.array_buffer, HandleKind::Buffer))
        &&& (self.element_array_buffer == 0 || self.is_kind(
            self.element_array_buffer,
            HandleKind::Buffer,
        ))
        &&& (self.vertex_array == 0 || self.is_kind(self.vertex_array, HandleKind::VertexArray))
        &&& (self.texture_2d == 0 || self.is_kind(self.texture_2d, HandleKind::Texture))
        &&& (self.renderbuffer == 0 || self.is_kind(self.renderbuffer, HandleKind::Renderbuffer))
        &&& (self.framebuffer == 0 || self.is_kind(self.framebuffer, HandleKind::Framebuffer))
        &&& (self.program == 0 || self.is_kind(self.program, HandleKind::Program))
        &&& (forall|h: u32|
            #[trigger] self.buffer_sizes.contains_key(h) ==> self.is_kind(h, HandleKind::Buffer))
        &&& (forall|h: u32|
            #[trigger] self.vao_attribs.contains_key(h) ==> self.is_kind(
                h,
                HandleKind::VertexArray,
            ))
        &&& (forall|h: u32|
            #[trigger] self.shaders.contains_key(h) ==> self.is_kind(h, HandleKind::Shader))
        &&& (forall|h: u32|
            #[trigger] self.programs.contains_key(h) ==> self.is_kind(h, HandleKind::Program))
        &&& (forall|h: u32|
            #[trigger] self.textures.contains_key(h) ==> self.is_kind(h, HandleKind::Texture))
        &&& (forall|h: u32|
            #[trigger] self.rb_storage.contains_key(h) ==> self.is_kind(
                h,
                HandleKind::Renderbuffer,
            ))
        &&& (forall|h: u32|
            #[trigger] self.attachments.contains_key(h) ==> self.is_kind(
                h,
                HandleKind::Framebuffer,
            ))
        &&& (forall|h: u32|
            #[trigger] self.handles.contains_key(h) ==> 0 < h < self.next_handle)
        &&& self.handles.dom().finite()
        &&& self.allocations == self.next_handle - 1
        &&& self.releases + self.live_handles() == self.allocations
    }
}

/// The modelled driver: the explicit capability object that all resource
/// wrappers operate on.
pub struct Driver {
    next_handle: u32,
    allocations: u64,
    releases: u64,
    objects: HashMap<u32, HandleKind>,
    array_buffer: u32,
    element_array_buffer: u32,
    vertex_array: u32,
    texture_2d: u32,
    renderbuffer: u32,
    framebuffer: u32,
    program: u32,
    buffer_sizes: HashMap<u32, u64>,
    vao_attribs: HashMap<u32, Vec<AttribOp>>,
    shaders: HashMap<u32, ShaderKind>,
    programs: HashMap<u32, ProgInfo>,
    uniform_writes: u64,
    textures: HashMap<u32, TexStorage>,
    rb_storage: HashMap<u32, RbStorage>,
    attachments: HashMap<u32, FbAttach>,
    viewport: (i32, i32, i32, i32),
}

impl View for Driver {
    type V = ModelState;

    closed spec fn view(&self) -> ModelState {
        ModelState {
            handles: self.objects@,
            next_handle: self.next_handle,
            allocations: self.allocations,
            releases: self.releases,
            array_buffer: self.array_buffer,
            element_array_buffer: self.element_array_buffer,
            vertex_array: self.vertex_array,
            texture_2d: self.texture_2d,
            renderbuffer: self.renderbuffer,
            framebuffer: self.framebuffer,
            program: self.program,
            buffer_sizes: self.buffer_sizes@,
            vao_attribs: self.vao_attribs@.map_values(|v: Vec<AttribOp>| v@),
            shaders: self.shaders@,
            programs: self.programs@.map_values(|p: ProgInfo| p@),
            uniform_writes: self.uniform_writes,
            textures: self.textures@,
            rb_storage: self.rb_storage@,
            attachments: self.attachments@,
            viewport: self.viewport,
        }
    }
}

/// Inserting into a map commutes with mapping its values.
proof fn lemma_map_values_insert<K, V, W>(m: Map<K, V>, f: spec_fn(V) -> W, k: K, v: V)
    ensures
        m.insert(k, v).map_values(f) =~= m.map_values(f).insert(k, f(v)),
{
}

/// Removing from a map commutes with mapping its values.
proof fn lemma_map_values_remove<K, V, W>(m: Map<K, V>, f: spec_fn(V) -> W, k: K)
    ensures
        m.remove(k).map_values(f) =~= m.map_values(f).remove(k),
{
}

impl Driver {
    /// Creates a driver with no handles and nothing bound.
    pub fn new() -> (d: Driver)
        ensures
            d@ == ModelState::init(),
            d@.inv(),
    {
        let d = Driver {
            next_handle: 1,
            allocations: 0,
            releases: 0,
            objects: HashMap::new(),
            array_buffer: 0,
            element_array_buffer: 0,
            vertex_array: 0,
            texture_2d: 0,
            renderbuffer: 0,
            framebuffer: 0,
            program: 0,
            buffer_sizes: HashMap::new(),
            vao_attribs: HashMap::new(),
            shaders: HashMap::new(),
            programs: HashMap::new(),
            uniform_writes: 0,
            textures: HashMap::new(),
            rb_storage: HashMap::new(),
            attachments: HashMap::new(),
            viewport: (0, 0, 0, 0),
        };
        proof {
            assert(d@ =~~= ModelState::init());
        }
        d
    }

    /// Issues a fresh handle of the given kind.
    fn fresh_handle(&mut self, kind: HandleKind) -> (h: u32)
        requires
            old(self)@.inv(),
            old(self)@.can_allocate(1),
        ensures
            final(self)@.inv(),
            h == old(self)@.next_handle,
            0 < h,
            !old(self)@.handles.contains_key(h),
            final(self)@ == (ModelState {
                handles: old(self)@.handles.insert(h, kind),
                next_handle: (h + 1) as u32,
                allocations: (old(self)@.allocations + 1) as u64,
                ..old(self)@
            }),
    {
        let h = self.next_handle;
        self.objects.insert(h, kind);
        self.next_handle = h + 1;
        self.allocations = self.allocations + 1;
        proof {
            assert(final(self)@ =~~= (ModelState {
                handles: old(self)@.handles.insert(h, kind),
                next_handle: (h + 1) as u32,
                allocations: (old(self)@.allocations + 1) as u64,
                ..old(self)@
            }));
        }
        h
    }

    /// Releases a live handle: it leaves every binding it occupied, its
    /// per-kind records are dropped, and it is never issued again.
    pub(crate) fn delete(&mut self, h: u32)
        requires
            old(self)@.inv(),
            old(self)@.handles.contains_key(h),
        ensures
            final(self)@.inv(),
            final(self)@ == old(self)@.with_deleted(h),
    {
        self.objects.remove(&h);
        self.releases = self.releases + 1;
        if self.array_buffer == h {
            self.array_buffer = 0;
        }
        if self.element_array_buffer == h {
            self.element_array_buffer = 0;
        }
        if self.vertex_array == h {
            self.vertex_array = 0;
        }
        if self.texture_2d == h {
            self.texture_2d = 0;
        }
        if self.renderbuffer == h {
            self.renderbuffer = 0;
        }
        if self.framebuffer == h {
            self.framebuffer = 0;
        }
        if self.program == h {
            self.program = 0;
        }
        self.buffer_sizes.remove(&h);
        self.vao_attribs.remove(&h);
        self.shaders.remove(&h);
        self.programs.remove(&h);
        self.textures.remove(&h);
        self.rb_storage.remove(&h);
        self.attachments.remove(&h);
        proof {
            lemma_map_values_remove(old(self).vao_attribs@, |v: Vec<AttribOp>| v@, h);
            lemma_map_values_remove(old(self).programs@, |p: ProgInfo| p@, h);
            assert(final(self)@ =~~= old(self)@.with_deleted(h));
        }
    }

    /// Allocates one data buffer handle.
    pub(crate) fn create_buffer(&mut self) -> (h: u32)
        requires
            old(self)@.inv(),
            old(self)@.can_allocate(1),
        ensures
            final(self)@.inv(),
            h == old(self)@.next_handle,
            0 < h,
            !old(self)@.handles.contains_key(h),
            final(self)@ == (ModelState {
                handles: old(self)@.handles.insert(h, HandleKind::Buffer),
                next_handle: (h + 1) as u32,
                allocations: (old(self)@.allocations + 1) as u64,
                ..old(self)@
            }),
    {
        self.fresh_handle(HandleKind::Buffer)
    }

    /// Allocates one vertex-array handle; its recorded attribute
    /// configuration starts empty.
    pub(crate) fn create_vertex_array(&mut self) -> (h: u32)
        requires
            old(self)@.inv(),
            old(self)@.can_allocate(1),
        ensures
            final(self)@.inv(),
            h == old(self)@.next_handle,
            0 < h,
            !old(self)@.handles.contains_key(h),
            final(self)@ == (ModelState {
                handles: old(self)@.handles.insert(h, HandleKind::VertexArray),
                next_handle: (h + 1) as u32,
                allocations: (old(self)@.allocations + 1) as u64,
                vao_attribs: old(self)@.vao_attribs.insert(h, Seq::empty()),
                ..old(self)@
            }),
    {
        let h = self.fresh_handle(HandleKind::VertexArray);
        let ops: Vec<AttribOp> = Vec::new();
        let ghost mid = self@;
        self.vao_attribs.insert(h, ops);
        proof {
            lemma_map_values_insert(old(self).vao_attribs@, |v: Vec<AttribOp>| v@, h, ops);
            assert(final(self)@ =~~= (ModelState {
                handles: old(self)@.handles.insert(h, HandleKind::VertexArray),
                next_handle: (h + 1) as u32,
                allocations: (old(self)@.allocations + 1) as u64,
                vao_attribs: old(self)@.vao_attribs.insert(h, Seq::empty()),
                ..old(self)@
            }));
        }
        h
    }

    /// Binds a buffer handle (or zero for none) to one buffer target.
    pub(crate) fn bind_buffer(&mut self, kind: BufferKind, h: u32)
        requires
            old(self)@.inv(),
            h == 0 || old(self)@.is_kind(h, HandleKind::Buffer),
        ensures
            final(self)@.inv(),
            final(self)@ == match kind {
                BufferKind::Array => (ModelState { array_buffer: h, ..old(self)@ }),
                BufferKind::ElementArray => (ModelState {
                    element_array_buffer: h,
                    ..old(self)@
                }),
            },
    {
        match kind {
            BufferKind::Array => {
                self.array_buffer = h;
                proof {
                    assert(final(self)@ =~~= (ModelState { array_buffer: h, ..old(self)@ }));
                }
            },
            BufferKind::ElementArray => {
                self.element_array_buffer = h;
                proof {
                    assert(final(self)@ =~~= (ModelState {
                        element_array_buffer: h,
                        ..old(self)@
                    }));
                }
            },
        }
    }

    /// Binds a vertex-array handle (or zero for none).
    pub(crate) fn bind_vertex_array(&mut self, h: u32)
        requires
            old(self)@.inv(),
            h == 0 || old(self)@.is_kind(h, HandleKind::VertexArray),
        ensures
            final(self)@.inv(),
            final(self)@ == (ModelState { vertex_array: h, ..old(self)@ }),
    {
        self.vertex_array = h;
        proof {
            assert(final(self)@ =~~= (ModelState { vertex_array: h, ..old(self)@ }));
        }
    }

    /// Stores `len` bytes of data in the buffer bound to the given
    /// target.  The driver owns the bytes after the call; only their
    /// length is observable through the size query.
    pub(crate) fn buffer_data(&mut self, kind: BufferKind, len: u64)
        requires
            old(self)@.inv(),
            old(self)@.buffer_binding(kind) != 0,
        ensures
            final(self)@.inv(),
            final(self)@ == (ModelState {
                buffer_sizes: old(self)@.buffer_sizes.insert(old(self)@.buffer_binding(kind), len),
                ..old(self)@
            }),
    {
        let bound = match kind {
            BufferKind::Array => self.array_buffer,
            BufferKind::ElementArray => self.element_array_buffer,
        };
        self.buffer_sizes.insert(bound, len);
        proof {
            assert(final(self)@ =~~= (ModelState {
                buffer_sizes: old(self)@.buffer_sizes.insert(old(self)@.buffer_binding(kind), len),
                ..old(self)@
            }));
        }
    }

    /// Records the attribute-binding operations in the bound vertex
    /// array.
    pub(crate) fn set_vertex_attribs(&mut self, ops: Vec<AttribOp>)
        requires
            old(self)@.inv(),
            old(self)@.vertex_array != 0,
        ensures
            final(self)@.inv(),
            final(self)@ == (ModelState {
                vao_attribs: old(self)@.vao_attribs.insert(old(self)@.vertex_array, ops@),
                ..old(self)@
            }),
    {
        let bound = self.vertex_array;
        let ghost opsv = ops;
        self.vao_attribs.insert(bound, ops);
        proof {
            lemma_map_values_insert(old(self).vao_attribs@, |v: Vec<AttribOp>| v@, bound, opsv);
            assert(final(self)@ =~~= (ModelState {
                vao_attribs: old(self)@.vao_attribs.insert(old(self)@.vertex_array, opsv@),
                ..old(self)@
            }));
        }
    }

    /// Sets the viewport rectangle.
    pub(crate) fn set_viewport(&mut self, x: i32, y: i32, w: i32, h: i32)
        requires
            old(self)@.inv(),
        ensures
            final(self)@.inv(),
            final(self)@ == (ModelState { viewport: (x, y, w, h), ..old(self)@ }),
    {
        self.viewport = (x, y, w, h);
        proof {
            assert(final(self)@ =~~= (ModelState { viewport: (x, y, w, h), ..old(self)@ }));
        }
    }

    /// Whether a handle is currently live.
    pub fn handle_is_live(&self, h: u32) -> (r: bool)
        ensures
            r == self@.handles.contains_key(h),
    {
        self.objects.contains_key(&h)
    }

    /// How many handles have been allocated over the driver's lifetime.
    pub fn allocation_count(&self) -> (r: u64)
        ensures
            r == self@.allocations,
    {
        self.allocations
    }

    /// How many handles have been released over the driver's lifetime.
    pub fn release_count(&self) -> (r: u64)
        ensures
            r == self@.releases,
    {
        self.releases
    }

    /// The handle bound to the given buffer target; zero means none.
    pub fn bound_buffer(&self, kind: BufferKind) -> (r: u32)
        ensures
            r == self@.buffer_binding(kind),
    {
        match kind {
            BufferKind::Array => self.array_buffer,
            BufferKind::ElementArray => self.element_array_buffer,
        }
    }

    /// The bound vertex array; zero means none.
    pub fn bound_vertex_array(&self) -> (r: u32)
        ensures
            r == self@.vertex_array,
    {
        self.vertex_array
    }

    /// The bound texture; zero means none.
    pub fn bound_texture(&self) -> (r: u32)
        ensures
            r == self@.texture_2d,
    {
        self.texture_2d
    }

    /// The bound framebuffer; zero means the default framebuffer.
    pub fn bound_framebuffer(&self) -> (r: u32)
        ensures
            r == self@.framebuffer,
    {
        self.framebuffer
    }

    /// The program installed for drawing; zero means none.
    pub fn current_program(&self) -> (r: u32)
        ensures
            r == self@.program,
    {
        self.program
    }

    /// The byte size a buffer handle currently stores, if any upload
    /// happened.
    pub fn buffer_size(&self, h: u32) -> (r: Option<u64>)
        ensures
            r == if self@.buffer_sizes.contains_key(h) {
                Some(self@.buffer_sizes[h])
            } else {
                None::<u64>
            },
    {
        match self.buffer_sizes.get(&h) {
            Some(v) => Some(*v),
            None => None,
        }
    }

    /// The storage a texture handle currently holds, if any.
    pub fn texture_storage(&self, h: u32) -> (r: Option<TexStorage>)
        ensures
            r == if self@.textures.contains_key(h) {
                Some(self@.textures[h])
            } else {
                None::<TexStorage>
            },
    {
        match self.textures.get(&h) {
            Some(v) => Some(*v),
            None => None,
        }
    }

    /// How many uniform values have been written overall.
    pub fn uniform_write_count(&self) -> (r: u64)
        ensures
            r == self@.uniform_writes,
    {
        self.uniform_writes
    }

    /// The viewport rectangle.
    pub fn viewport_rect(&self) -> (r: (i32, i32, i32, i32))
        ensures
            r == self@.viewport,
    {
        self.viewport
    }
}

/// A binding after the handle it held was released: cleared to "none" if
/// it held that handle, unchanged otherwise.
pub open spec fn clear_binding(bound: u32, h: u32) -> u32 {
    if bound == h {
        0
    } else {
        bound
    }
}

/// A lifetime counter after one more event, held at its ceiling.
pub open spec fn inc_sat(x: u64) -> u64 {
    if x < u64::MAX {
        (x + 1) as u64
    } else {
        x
    }
}

/// Some entry of `names` spells exactly `n`.
pub open spec fn contains_name(names: Seq<Seq<char>>, n: Seq<char>) -> bool {
    exists|i: int| 0 <= i < names.len() && names[i] == n
}

impl Driver {
    /// Compiles one shader stage from source and returns the new shader
    /// handle.  The modelled compiler accepts any non-empty source and
    /// rejects an empty one with a non-empty diagnostic; a real driver
    /// judges the text more finely, but the surrounding protocol is the
    /// same, and rejection never allocates a handle.
    pub(crate) fn compile_shader(&mut self, kind: ShaderKind, source: &str) -> (r: Result<
        u32,
        String,
    >)
        requires
            old(self)@.inv(),
            old(self)@.can_allocate(1),
        ensures
            final(self)@.inv(),
            source@.len() > 0 <==> r is Ok,
            r matches Ok(h) ==> h == old(self)@.next_handle && 0 < h && !old(
                self,
            )@.handles.contains_key(h) && final(self)@ == (ModelState {
                handles: old(self)@.handles.insert(h, HandleKind::Shader),
                next_handle: (h + 1) as u32,
                allocations: (old(self)@.allocations + 1) as u64,
                shaders: old(self)@.shaders.insert(h, kind),
                ..old(self)@
            }),
            r matches Err(m) ==> m@ == "the stage source is empty"@ && m@.len() > 0
                && final(self)@ == old(self)@,
    {
        if source.is_empty() {
            let msg = "the stage source is empty";
            proof {
                reveal_strlit("the stage source is empty");
            }
            return Err(msg.to_owned());
        }
        let h = self.fresh_handle(HandleKind::Shader);
        self.shaders.insert(h, kind);
        proof {
            assert(final(self)@ =~~= (ModelState {
                handles: old(self)@.handles.insert(h, HandleKind::Shader),
                next_handle: (h + 1) as u32,
                allocations: (old(self)@.allocations + 1) as u64,
                shaders: old(self)@.shaders.insert(h, kind),
                ..old(self)@
            }));
        }
        Ok(h)
    }

    /// Allocates one program handle; its record starts unlinked, with no
    /// attached stages and no active uniforms.
    pub(crate) fn create_program(&mut self) -> (h: u32)
        requires
            old(self)@.inv(),
            old(self)@.can_allocate(1),
        ensures
            final(self)@.inv(),
            h == old(self)@.next_handle,
            0 < h,
            !old(self)@.handles.contains_key(h),
            final(self)@ == (ModelState {
                handles: old(self)@.handles.insert(h, HandleKind::Program),
                next_handle: (h + 1) as u32,
                allocations: (old(self)@.allocations + 1) as u64,
                programs: old(self)@.programs.insert(
                    h,
                    (ProgModel {
                        linked: false,
                        attached: Seq::empty(),
                        linked_with: Seq::empty(),
                        uniforms: Seq::empty(),
                    }),
                ),
                ..old(self)@
            }),
    {
        let h = self.fresh_handle(HandleKind::Program);
        let info = ProgInfo {
            linked: false,
            attached: Vec::new(),
            linked_with: Vec::new(),
            uniforms: Vec::new(),
        };
        let ghost infov = info;
        self.programs.insert(h, info);
        proof {
            lemma_map_values_insert(old(self).programs@, |p: ProgInfo| p@, h, infov);
            assert(infov@ =~~= (ProgModel {
                linked: false,
                attached: Seq::empty(),
                linked_with: Seq::empty(),
                uniforms: Seq::empty(),
            }));
            assert(final(self)@ =~~= (ModelState {
                handles: old(self)@.handles.insert(h, HandleKind::Program),
                next_handle: (h + 1) as u32,
                allocations: (old(self)@.allocations + 1) as u64,
                programs: old(self)@.programs.insert(
                    h,
                    (ProgModel {
                        linked: false,
                        attached: Seq::empty(),
                        linked_with: Seq::empty(),
                        uniforms: Seq::empty(),
                    }),
                ),
                ..old(self)@
            }));
        }
        h
    }

    /// Attaches a compiled stage to a program.
    pub(crate) fn attach_shader(&mut self, p: u32, s: u32)
        requires
            old(self)@.inv(),
            old(self)@.programs.contains_key(p),
            old(self)@.is_kind(s, HandleKind::Shader),
        ensures
            final(self)@.inv(),
            final(self)@ == (ModelState {
                programs: old(self)@.programs.insert(
                    p,
                    (ProgModel {
                        attached: old(self)@.programs[p].attached.push(s),
                        ..old(self)@.programs[p]
                    }),
                ),
                ..old(self)@
            }),
    {
        let entry = self.programs.remove(&p);
        match entry {
            Some(mut info) => {
                info.attached.push(s);
                let ghost infov = info;
                self.programs.insert(p, info);
                proof {
                    lemma_map_values_remove(old(self).programs@, |q: ProgInfo| q@, p);
                    lemma_map_values_insert(
                        old(self).programs@.remove(p),
                        |q: ProgInfo| q@,
                        p,
                        infov,
                    );
                    assert(final(self)@ =~~= (ModelState {
                        programs: old(self)@.programs.insert(
                            p,
                            (ProgModel {
                                attached: old(self)@.programs[p].attached.push(s),
                                ..old(self)@.programs[p]
                            }),
                        ),
                        ..old(self)@
                    }));
                }
            },
            None => {
                proof {
                    assert(false);
                }
            },
        }
    }

    /// Detaches the most recently attached stage from a program.
    pub(crate) fn detach_shader(&mut self, p: u32, s: u32)
        requires
            old(self)@.inv(),
            old(self)@.programs.contains_key(p),
            old(self)@.programs[p].attached.len() > 0,
            old(self)@.programs[p].attached.last() == s,
        ensures
            final(self)@.inv(),
            final(self)@ == (ModelState {
                programs: old(self)@.programs.insert(
                    p,
                    (ProgModel {
                        attached: old(self)@.programs[p].attached.drop_last(),
                        ..old(self)@.programs[p]
                    }),
                ),
                ..old(self)@
            }),
    {
        let entry = self.programs.remove(&p);
        match entry {
            Some(mut info) => {
                info.attached.pop();
                let ghost infov = info;
                self.programs.insert(p, info);
                proof {
                    lemma_map_values_remove(old(self).programs@, |q: ProgInfo| q@, p);
                    lemma_map_values_insert(
                        old(self).programs@.remove(p),
                        |q: ProgInfo| q@,
                        p,
                        infov,
                    );
                    assert(infov@.attached =~= old(self)@.programs[p].attached.drop_last());
                    assert(final(self)@ =~~= (ModelState {
                        programs: old(self)@.programs.insert(
                            p,
                            (ProgModel {
                                attached: old(self)@.programs[p].attached.drop_last(),
                                ..old(self)@.programs[p]
                            }),
                        ),
                        ..old(self)@
                    }));
                }
            },
            None => {
                proof {
                    assert(false);
                }
            },
        }
    }

    /// Links a program.  The modelled linker always succeeds; the record
    /// of the attached stages is not consumed by linking, and the stages
    /// attached at this moment are remembered as the ones the program
    /// was linked with.
    pub(crate) fn link_program(&mut self, p: u32)
        requires
            old(self)@.inv(),
            old(self)@.programs.contains_key(p),
        ensures
            final(self)@.inv(),
            final(self)@ == (ModelState {
                programs: old(self)@.programs.insert(
                    p,
                    (ProgModel {
                        linked: true,
                        linked_with: old(self)@.programs[p].attached,
                        ..old(self)@.programs[p]
                    }),
                ),
                ..old(self)@
            }),
    {
        let entry = self.programs.remove(&p);
        match entry {
            Some(mut info) => {
                info.linked = true;
                let mut lw: Vec<u32> = Vec::new();
                let n = info.attached.len();
                let mut i: usize = 0;
                while i < n
                    invariant
                        n == info.attached@.len(),
                        i <= n,
                        lw@ =~= info.attached@.take(i as int),
                    decreases n - i,
                {
                    lw.push(info.attached[i]);
                    i += 1;
                }
                proof {
                    assert(info.attached@.take(n as int) =~= info.attached@);
                }
                info.linked_with = lw;
                let ghost infov = info;
                self.programs.insert(p, info);
                proof {
                    lemma_map_values_remove(old(self).programs@, |q: ProgInfo| q@, p);
                    lemma_map_values_insert(
                        old(self).programs@.remove(p),
                        |q: ProgInfo| q@,
                        p,
                        infov,
                    );
                    assert(infov@ =~~= (ProgModel {
                        linked: true,
                        linked_with: old(self)@.programs[p].attached,
                        ..old(self)@.programs[p]
                    }));
                    assert(final(self)@ =~~= (ModelState {
                        programs: old(self)@.programs.insert(
                            p,
                            (ProgModel {
                                linked: true,
                                linked_with: old(self)@.programs[p].attached,
                                ..old(self)@.programs[p]
                            }),
                        ),
                        ..old(self)@
                    }));
                }
            },
            None => {
                proof {
                    assert(false);
                }
            },
        }
    }

    /// Declares an active uniform of a linked program under the given
    /// name.  This is the model's stand-in for the linker discovering the
    /// uniforms that a real shader's source declares; declaring a name
    /// twice changes nothing.
    pub(crate) fn declare_uniform(&mut self, p: u32, name: &str)
        requires
            old(self)@.inv(),
            old(self)@.programs.contains_key(p),
        ensures
            final(self)@.inv(),
            contains_name(old(self)@.programs[p].uniforms, name@) ==> final(self)@ == old(self)@,
            !contains_name(old(self)@.programs[p].uniforms, name@) ==> final(self)@ == (ModelState {
                programs: old(self)@.programs.insert(
                    p,
                    (ProgModel {
                        uniforms: old(self)@.programs[p].uniforms.push(name@),
                        ..old(self)@.programs[p]
                    }),
                ),
                ..old(self)@
            }),
    {
        if self.uniform_location(p, name).is_some() {
            return ;
        }
        let entry = self.programs.remove(&p);
        match entry {
            Some(mut info) => {
                info.uniforms.push(name.to_owned());
                let ghost infov = info;
                self.programs.insert(p, info);
                proof {
                    lemma_map_values_remove(old(self).programs@, |q: ProgInfo| q@, p);
                    lemma_map_values_insert(
                        old(self).programs@.remove(p),
                        |q: ProgInfo| q@,
                        p,
                        infov,
                    );
                    assert(infov@.uniforms =~= old(self)@.programs[p].uniforms.push(name@));
                    assert(final(self)@ =~~= (ModelState {
                        programs: old(self)@.programs.insert(
                            p,
                            (ProgModel {
                                uniforms: old(self)@.programs[p].uniforms.push(name@),
                                ..old(self)@.programs[p]
                            }),
                        ),
                        ..old(self)@
                    }));
                }
            },
            None => {
                proof {
                    assert(false);
                }
            },
        }
    }

    /// Looks up the slot of an active uniform by name: the first entry of
    /// the program's uniform table that spells the name, if any.
    pub(crate) fn uniform_location(&self, p: u32, name: &str) -> (r: Option<usize>)
        requires
            self@.inv(),
            self@.programs.contains_key(p),
        ensures
            r is Some <==> contains_name(self@.programs[p].uniforms, name@),
            r matches Some(i) ==> i < self@.programs[p].uniforms.len() && self@.programs[p].uniforms[i as int] == name@,
    {
        let owned = name.to_owned();
        match self.programs.get(&p) {
            Some(info) => {
                let n = info.uniforms.len();
                let mut i: usize = 0;
                while i < n
                    invariant
                        n == info.uniforms@.len(),
                        i <= n,
                        self@.inv(),
                        self@.programs.contains_key(p),
                        info@ == self@.programs[p],
                        owned@ == name@,
                        forall|k: int| 0 <= k < i ==> self@.programs[p].uniforms[k] != name@,
                    decreases n - i,
                {
                    if info.uniforms[i].eq(&owned) {
                        assert(self@.programs[p].uniforms[i as int] == name@);
                        return Some(i);
                    }
                    i += 1;
                }
                None
            },
            None => {
                proof {
                    assert(false);
                }
                None
            },
        }
    }

    /// Writes one uniform value into a slot of the program installed for
    /// drawing.  The value itself lives on the driver side; the model
    /// counts the write.
    pub(crate) fn upload_uniform(&mut self, p: u32, slot: usize)
        requires
            old(self)@.inv(),
            old(self)@.program == p,
            old(self)@.programs.contains_key(p),
            slot < old(self)@.programs[p].uniforms.len(),
        ensures
            final(self)@.inv(),
            final(self)@ == (ModelState {
                uniform_writes: inc_sat(old(self)@.uniform_writes),
                ..old(self)@
            }),
    {
        if self.uniform_writes < u64::MAX {
            self.uniform_writes = self.uniform_writes + 1;
        }
        proof {
            assert(final(self)@ =~~= (ModelState {
                uniform_writes: inc_sat(old(self)@.uniform_writes),
                ..old(self)@
            }));
        }
    }

    /// Installs a program (or zero for none) as current for drawing.
    pub(crate) fn use_program(&mut self, h: u32)
        requires
            old(self)@.inv(),
            h == 0 || old(self)@.is_kind(h, HandleKind::Program),
        ensures
            final(self)@.inv(),
            final(self)@ == (ModelState { program: h, ..old(self)@ }),
    {
        self.program = h;
        proof {
            assert(final(self)@ =~~= (ModelState { program: h, ..old(self)@ }));
        }
    }

    /// Allocates one texture handle; it has no storage until an upload.
    pub(crate) fn create_texture(&mut self) -> (h: u32)
        requires
            old(self)@.inv(),
            old(self)@.can_allocate(1),
        ensures
            final(self)@.inv(),
            h == old(self)@.next_handle,
            0 < h,
            !old(self)@.handles.contains_key(h),
            final(self)@ == (ModelState {
                handles: old(self)@.handles.insert(h, HandleKind::Texture),
                next_handle: (h + 1) as u32,
                allocations: (old(self)@.allocations + 1) as u64,
                ..old(self)@
            }),
    {
        self.fresh_handle(HandleKind::Texture)
    }

    /// Binds a texture handle (or zero for none).
    pub(crate) fn bind_texture(&mut self, h: u32)
        requires
            old(self)@.inv(),
            h == 0 || old(self)@.is_kind(h, HandleKind::Texture),
        ensures
            final(self)@.inv(),
            final(self)@ == (ModelState { texture_2d: h, ..old(self)@ }),
    {
        self.texture_2d = h;
        proof {
            assert(final(self)@ =~~= (ModelState { texture_2d: h, ..old(self)@ }));
        }
    }

    /// Creates storage of the given format and dimensions for the bound
    /// texture, replacing what it held; the new storage has no mip
    /// levels yet.
    pub(crate) fn tex_image_2d(&mut self, format: TexFormat, width: usize, height: usize)
        requires
            old(self)@.inv(),
            old(self)@.texture_2d != 0,
        ensures
            final(self)@.inv(),
            final(self)@ == (ModelState {
                textures: old(self)@.textures.insert(
                    old(self)@.texture_2d,
                    (TexStorage { format, width, height, mipmap: false }),
                ),
                ..old(self)@
            }),
    {
        let bound = self.texture_2d;
        self.textures.insert(bound, TexStorage { format, width, height, mipmap: false });
        proof {
            assert(final(self)@ =~~= (ModelState {
                textures: old(self)@.textures.insert(
                    old(self)@.texture_2d,
                    (TexStorage { format, width, height, mipmap: false }),
                ),
                ..old(self)@
            }));
        }
    }

    /// Generates mip levels for the bound texture's storage.
    pub(crate) fn generate_mipmap(&mut self)
        requires
            old(self)@.inv(),
            old(self)@.texture_2d != 0,
            old(self)@.textures.contains_key(old(self)@.texture_2d),
        ensures
            final(self)@.inv(),
            final(self)@ == (ModelState {
                textures: old(self)@.textures.insert(
                    old(self)@.texture_2d,
                    (TexStorage { mipmap: true, ..old(self)@.textures[old(self)@.texture_2d] }),
                ),
                ..old(self)@
            }),
    {
        let bound = self.texture_2d;
        let entry = self.textures.get(&bound);
        match entry {
            Some(st) => {
                let updated = TexStorage { mipmap: true, ..*st };
                self.textures.insert(bound, updated);
                proof {
                    assert(final(self)@ =~~= (ModelState {
                        textures: old(self)@.textures.insert(
                            old(self)@.texture_2d,
                            (TexStorage {
                                mipmap: true,
                                ..old(self)@.textures[old(self)@.texture_2d]
                            }),
                        ),
                        ..old(self)@
                    }));
                }
            },
            None => {
                proof {
                    assert(false);
                }
            },
        }
    }

    /// Allocates one renderbuffer handle; it has no storage yet.
    pub(crate) fn create_renderbuffer(&mut self) -> (h: u32)
        requires
            old(self)@.inv(),
            old(self)@.can_allocate(1),
        ensures
            final(self)@.inv(),
            h == old(self)@.next_handle,
            0 < h,
            !old(self)@.handles.contains_key(h),
            final(self)@ == (ModelState {
                handles: old(self)@.handles.insert(h, HandleKind::Renderbuffer),
                next_handle: (h + 1) as u32,
                allocations: (old(self)@.allocations + 1) as u64,
                ..old(self)@
            }),
    {
        self.fresh_handle(HandleKind::Renderbuffer)
    }

    /// Binds a renderbuffer handle (or zero for none).
    pub(crate) fn bind_renderbuffer(&mut self, h: u32)
        requires
            old(self)@.inv(),
            h == 0 || old(self)@.is_kind(h, HandleKind::Renderbuffer),
        ensures
            final(self)@.inv(),
            final(self)@ == (ModelState { renderbuffer: h, ..old(self)@ }),
    {
        self.renderbuffer = h;
        proof {
            assert(final(self)@ =~~= (ModelState { renderbuffer: h, ..old(self)@ }));
        }
    }

    /// Creates storage of the given dimensions for the bound
    /// renderbuffer.
    pub(crate) fn renderbuffer_storage(&mut self, width: usize, height: usize)
        requires
            old(self)@.inv(),
            old(self)@.renderbuffer != 0,
        ensures
            final(self)@.inv(),
            final(self)@ == (ModelState {
                rb_storage: old(self)@.rb_storage.insert(
                    old(self)@.renderbuffer,
                    (RbStorage { width, height }),
                ),
                ..old(self)@
            }),
    {
        let bound = self.renderbuffer;
        self.rb_storage.insert(bound, RbStorage { width, height });
        proof {
            assert(final(self)@ =~~= (ModelState {
                rb_storage: old(self)@.rb_storage.insert(
                    old(self)@.renderbuffer,
                    (RbStorage { width, height }),
                ),
                ..old(self)@
            }));
        }
    }

    /// Allocates one framebuffer handle with nothing attached.
    pub(crate) fn create_framebuffer(&mut self) -> (h: u32)
        requires
            old(self)@.inv(),
            old(self)@.can_allocate(1),
        ensures
            final(self)@.inv(),
            h == old(self)@.next_handle,
            0 < h,
            !old(self)@.handles.contains_key(h),
            final(self)@ == (ModelState {
                handles: old(self)@.handles.insert(h, HandleKind::Framebuffer),
                next_handle: (h + 1) as u32,
                allocations: (old(self)@.allocations + 1) as u64,
                attachments: old(self)@.attachments.insert(h, (FbAttach { color: 0, depth: 0 })),
                ..old(self)@
            }),
    {
        let h = self.fresh_handle(HandleKind::Framebuffer);
        self.attachments.insert(h, FbAttach { color: 0, depth: 0 });
        proof {
            assert(final(self)@ =~~= (ModelState {
                handles: old(self)@.handles.insert(h, HandleKind::Framebuffer),
                next_handle: (h + 1) as u32,
                allocations: (old(self)@.allocations + 1) as u64,
                attachments: old(self)@.attachments.insert(h, (FbAttach { color: 0, depth: 0 })),
                ..old(self)@
            }));
        }
        h
    }

    /// Binds a framebuffer handle, or zero for the default framebuffer.
    pub(crate) fn bind_framebuffer(&mut self, h: u32)
        requires
            old(self)@.inv(),
            h == 0 || old(self)@.is_kind(h, HandleKind::Framebuffer),
        ensures
            final(self)@.inv(),
            final(self)@ == (ModelState { framebuffer: h, ..old(self)@ }),
    {
        self.framebuffer = h;
        proof {
            assert(final(self)@ =~~= (ModelState { framebuffer: h, ..old(self)@ }));
        }
    }

    /// Attaches a texture (or zero for none) as the bound framebuffer's
    /// color attachment.
    pub(crate) fn framebuffer_texture_2d(&mut self, tex: u32)
        requires
            old(self)@.inv(),
            old(self)@.framebuffer != 0,
            old(self)@.attachments.contains_key(old(self)@.framebuffer),
            tex == 0 || old(self)@.is_kind(tex, HandleKind::Texture),
        ensures
            final(self)@.inv(),
            final(self)@ == (ModelState {
                attachments: old(self)@.attachments.insert(
                    old(self)@.framebuffer,
                    (FbAttach { color: tex, ..old(self)@.attachments[old(self)@.framebuffer] }),
                ),
                ..old(self)@
            }),
    {
        let bound = self.framebuffer;
        let entry = self.attachments.get(&bound);
        match entry {
            Some(att) => {
                let updated = FbAttach { color: tex, ..*att };
                self.attachments.insert(bound, updated);
                proof {
                    assert(final(self)@ =~~= (ModelState {
                        attachments: old(self)@.attachments.insert(
                            old(self)@.framebuffer,
                            (FbAttach {
                                color: tex,
                                ..old(self)@.attachments[old(self)@.framebuffer]
                            }),
                        ),
                        ..old(self)@
                    }));
                }
            },
            None => {
                proof {
                    assert(false);
                }
            },
        }
    }

    /// Attaches a renderbuffer (or zero for none) as the bound
    /// framebuffer's depth attachment.
    pub(crate) fn framebuffer_renderbuffer(&mut self, rbo: u32)
        requires
            old(self)@.inv(),
            old(self)@.framebuffer != 0,
            old(self)@.attachments.contains_key(old(self)@.framebuffer),
            rbo == 0 || old(self)@.is_kind(rbo, HandleKind::Renderbuffer),
        ensures
            final(self)@.inv(),
            final(self)@ == (ModelState {
                attachments: old(self)@.attachments.insert(
                    old(self)@.framebuffer,
                    (FbAttach { depth: rbo, ..old(self)@.attachments[old(self)@.framebuffer] }),
                ),
                ..old(self)@
            }),
    {
        let bound = self.framebuffer;
        let entry = self.attachments.get(&bound);
        match entry {
            Some(att) => {
                let updated = FbAttach { depth: rbo, ..*att };
                self.attachments.insert(bound, updated);
                proof {
                    assert(final(self)@ =~~= (ModelState {
                        attachments: old(self)@.attachments.insert(
                            old(self)@.framebuffer,
                            (FbAttach {
                                depth: rbo,
                                ..old(self)@.attachments[old(self)@.framebuffer]
                            }),
                        ),
                        ..old(self)@
                    }));
                }
            },
            None => {
                proof {
                    assert(false);
                }
            },
        }
    }

    /// Reports whether a framebuffer handle is complete: a color texture
    /// with storage and a depth renderbuffer with storage are attached.
    pub fn framebuffer_complete(&self, f: u32) -> (r: bool)
        ensures
            r == self@.fb_complete(f),
    {
        let entry = self.attachments.get(&f);
        match entry {
            Some(att) => {
                att.color != 0 && self.textures.contains_key(&att.color) && att.depth != 0
                    && self.rb_storage.contains_key(&att.depth)
            },
            None => false,
        }
    }

    /// Reports whether the bound framebuffer is complete.  The default
    /// framebuffer (zero bound) is always complete; a framebuffer object
    /// is complete when a color texture with storage and a depth
    /// renderbuffer with storage are attached.
    pub(crate) fn check_framebuffer_status(&self) -> (r: bool)
        requires
            self@.inv(),
            self@.framebuffer == 0 || self@.attachments.contains_key(self@.framebuffer),
        ensures
            r == (self@.framebuffer == 0 || self@.fb_complete(self@.framebuffer)),
    {
        if self.framebuffer == 0 {
            return true;
        }
        let entry = self.attachments.get(&self.framebuffer);
        match entry {
            Some(att) => {
                att.color != 0 && self.textures.contains_key(&att.color) && att.depth != 0
                    && self.rb_storage.contains_key(&att.depth)
            },
            None => {
                proof {
                    assert(false);
                }
                false
            },
        }
    }
}

} // verus!
