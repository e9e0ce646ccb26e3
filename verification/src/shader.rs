//! Shader compilation, program linking, and uniform upload.
//!
//! A [`Shader`] owns one compiled stage; a [`Program`] owns one linked
//! program.  Building a program attaches all stages, links, and detaches
//! them again, so the stages are not retained and may be released right
//! after linking.  Uniform uploads resolve the uniform's slot by name on
//! every call; a name that does not resolve is a silent no-op that leaves
//! the driver untouched, never an error, since shader/application
//! mismatches on unused uniforms are common and harmless.

use vstd::prelude::*;

use crate::driver::{
    contains_name, inc_sat, Driver, HandleKind, ModelState, ProgModel, ShaderKind,
};
use crate::resources;

verus! {

/// Why a shader stage or program could not be built.
#[derive(Debug)]
pub enum Error {
    /// Loading the named resource failed.
    ResourceLoad { name: String, inner: resources::Error },
    /// The resource name ends in no known stage extension.
    CanNotDetermineShaderTypeForResource { name: String },
    /// The driver rejected the stage source; carries its diagnostic log.
    CompileError { message: String },
    /// The driver rejected the program; carries its diagnostic log.
    /// The modelled linker always succeeds, so the library itself never
    /// produces this variant; a real driver's link failure is surfaced
    /// through it by the embedding.
    LinkError { message: String },
}

impl Error {
    /// The text [`Error::message`] returns: the failure named, with the
    /// resource name and underlying cause where the variant carries
    /// them.
    pub open spec fn spec_message(self) -> Seq<char> {
        match self {
            Error::ResourceLoad { name, inner } => "failed to load shader resource "@ + name@
                + ": "@ + inner.spec_message(),
            Error::CanNotDetermineShaderTypeForResource { name } => {
                "cannot determine the shader type for resource "@ + name@
            },
            Error::CompileError { message } => "shader compilation failed: "@ + message@,
            Error::LinkError { message } => "program linking failed: "@ + message@,
        }
    }

    /// A human-readable description of the failure.
    pub fn message(&self) -> (r: String)
        ensures
            r@ == self.spec_message(),
            r@.len() > 0,
    {
        proof {
            reveal_strlit("failed to load shader resource ");
            reveal_strlit(": ");
            reveal_strlit("cannot determine the shader type for resource ");
            reveal_strlit("shader compilation failed: ");
            reveal_strlit("program linking failed: ");
        }
        match self {
            Error::ResourceLoad { name, inner } => "failed to load shader resource "
                .to_owned()
                .concat(name.as_str())
                .concat(": ")
                .concat(inner.message().as_str()),
            Error::CanNotDetermineShaderTypeForResource { name } => {
                "cannot determine the shader type for resource ".to_owned().concat(name.as_str())
            },
            Error::CompileError { message } => "shader compilation failed: ".to_owned().concat(
                message.as_str(),
            ),
            Error::LinkError { message } => "program linking failed: ".to_owned().concat(
                message.as_str(),
            ),
        }
    }
}

/// The resource name ends in the vertex-stage extension.
pub open spec fn is_vert_name(s: Seq<char>) -> bool {
    &&& s.len() >= 5
    &&& s[s.len() - 5] == '.'
    &&& s[s.len() - 4] == 'v'
    &&& s[s.len() - 3] == 'e'
    &&& s[s.len() - 2] == 'r'
    &&& s[s.len() - 1] == 't'
}

/// The resource name ends in the fragment-stage extension.
pub open spec fn is_frag_name(s: Seq<char>) -> bool {
    &&& s.len() >= 5
    &&& s[s.len() - 5] == '.'
    &&& s[s.len() - 4] == 'f'
    &&& s[s.len() - 3] == 'r'
    &&& s[s.len() - 2] == 'a'
    &&& s[s.len() - 1] == 'g'
}

/// Exclusive owner of one compiled shader stage.
pub struct Shader {
    handle: u32,
    kind: ShaderKind,
}

impl Shader {
    /// The owned handle.
    pub closed spec fn id(self) -> u32 {
        self.handle
    }

    /// Returns the owned handle, for driver-state queries.
    pub fn handle(&self) -> (r: u32)
        ensures
            r == self.id(),
    {
        self.handle
    }

    /// The stage this shader was compiled for.
    pub closed spec fn stage(self) -> ShaderKind {
        self.kind
    }

    /// The owned handle is live in the given driver state, as a shader.
    pub open spec fn is_live(self, s: ModelState) -> bool {
        s.is_kind(self.id(), HandleKind::Shader)
    }

    /// The stage the given resource name is for: the name's extension
    /// decides, and a name with no known extension is rejected before
    /// anything is loaded.
    pub fn kind_for_resource_name(name: &str) -> (r: Result<ShaderKind, Error>)
        ensures
            is_vert_name(name@) ==> r == Ok::<ShaderKind, Error>(ShaderKind::Vertex),
            !is_vert_name(name@) && is_frag_name(name@) ==> r == Ok::<ShaderKind, Error>(
                ShaderKind::Fragment,
            ),
            !is_vert_name(name@) && !is_frag_name(name@) ==> (r matches Err(e)
                && e matches Error::CanNotDetermineShaderTypeForResource { name: n } && n@
                == name@),
            r is Ok <==> is_vert_name(name@) || is_frag_name(name@),
    {
        let n = name.unicode_len();
        if n >= 5 {
            let dot = name.get_char(n - 5);
            let c4 = name.get_char(n - 4);
            let c3 = name.get_char(n - 3);
            let c2 = name.get_char(n - 2);
            let c1 = name.get_char(n - 1);
            if dot == '.' && c4 == 'v' && c3 == 'e' && c2 == 'r' && c1 == 't' {
                return Ok(ShaderKind::Vertex);
            }
            if dot == '.' && c4 == 'f' && c3 == 'r' && c2 == 'a' && c1 == 'g' {
                return Ok(ShaderKind::Fragment);
            }
        }
        Err(Error::CanNotDetermineShaderTypeForResource { name: name.to_owned() })
    }

    /// Compiles one stage from source.  A non-empty source compiles and
    /// yields a fresh shader handle; an empty source is rejected with a
    /// compile error whose diagnostic is exactly the resource name
    /// followed by the driver's log, and nothing is allocated.
    pub fn from_source(d: &mut Driver, source: &str, kind: ShaderKind, name: &str) -> (r: Result<
        Shader,
        Error,
    >)
        requires
            old(d)@.inv(),
            old(d)@.can_allocate(1),
        ensures
            final(d)@.inv(),
            source@.len() > 0 <==> r is Ok,
            r matches Ok(sh) ==> sh.id() == old(d)@.next_handle && sh.stage() == kind
                && sh.is_live(final(d)@) && final(d)@ == (ModelState {
                handles: old(d)@.handles.insert(sh.id(), HandleKind::Shader),
                next_handle: (sh.id() + 1) as u32,
                allocations: (old(d)@.allocations + 1) as u64,
                shaders: old(d)@.shaders.insert(sh.id(), kind),
                ..old(d)@
            }),
            r matches Err(e) ==> final(d)@ == old(d)@ && (e matches Error::CompileError {
                message,
            } && message@ == name@ + "the stage source is empty"@ && message@.len() > 0),
    {
        match d.compile_shader(kind, source) {
            Ok(handle) => Ok(Shader { handle, kind }),
            Err(log) => Err(
                Error::CompileError { message: name.to_owned().concat(log.as_str()) },
            ),
        }
    }

    /// Compiles a vertex stage from source; see [`Shader::from_source`].
    pub fn from_vert_source(d: &mut Driver, source: &str, name: &str) -> (r: Result<Shader, Error>)
        requires
            old(d)@.inv(),
            old(d)@.can_allocate(1),
        ensures
            final(d)@.inv(),
            source@.len() > 0 <==> r is Ok,
            r matches Ok(sh) ==> sh.id() == old(d)@.next_handle && sh.stage() == ShaderKind::Vertex
                && sh.is_live(final(d)@) && final(d)@ == (ModelState {
                handles: old(d)@.handles.insert(sh.id(), HandleKind::Shader),
                next_handle: (sh.id() + 1) as u32,
                allocations: (old(d)@.allocations + 1) as u64,
                shaders: old(d)@.shaders.insert(sh.id(), ShaderKind::Vertex),
                ..old(d)@
            }),
            r matches Err(e) ==> final(d)@ == old(d)@ && (e matches Error::CompileError {
                message,
            } && message@ == name@ + "the stage source is empty"@ && message@.len() > 0),
    {
        Shader::from_source(d, source, ShaderKind::Vertex, name)
    }

    /// Compiles a fragment stage from source; see [`Shader::from_source`].
    pub fn from_frag_source(d: &mut Driver, source: &str, name: &str) -> (r: Result<Shader, Error>)
        requires
            old(d)@.inv(),
            old(d)@.can_allocate(1),
        ensures
            final(d)@.inv(),
            source@.len() > 0 <==> r is Ok,
            r matches Ok(sh) ==> sh.id() == old(d)@.next_handle && sh.stage()
                == ShaderKind::Fragment && sh.is_live(final(d)@) && final(d)@ == (ModelState {
                handles: old(d)@.handles.insert(sh.id(), HandleKind::Shader),
                next_handle: (sh.id() + 1) as u32,
                allocations: (old(d)@.allocations + 1) as u64,
                shaders: old(d)@.shaders.insert(sh.id(), ShaderKind::Fragment),
                ..old(d)@
            }),
            r matches Err(e) ==> final(d)@ == old(d)@ && (e matches Error::CompileError {
                message,
            } && message@ == name@ + "the stage source is empty"@ && message@.len() > 0),
    {
        Shader::from_source(d, source, ShaderKind::Fragment, name)
    }

    /// Releases the owned handle; stages may be released right after the
    /// program they were linked into was built.
    pub fn delete(self, d: &mut Driver)
        requires
            old(d)@.inv(),
            self.is_live(old(d)@),
        ensures
            final(d)@.inv(),
            final(d)@ == old(d)@.with_deleted(self.id()),
            !final(d)@.handles.contains_key(self.id()),
    {
        d.delete(self.handle);
    }
}

/// The handles of a sequence of shaders, in order.
pub open spec fn shader_ids(ss: Seq<Shader>) -> Seq<u32> {
    ss.map_values(|sh: Shader| sh.id())
}

/// Exclusive owner of one linked shader program.
pub struct Program {
    handle: u32,
}

impl Program {
    /// The owned handle.
    pub closed spec fn id(self) -> u32 {
        self.handle
    }

    /// Returns the owned handle, for driver-state queries.
    pub fn handle(&self) -> (r: u32)
        ensures
            r == self.id(),
    {
        self.handle
    }

    /// The owned handle is live in the given driver state, as a program.
    pub open spec fn is_live(self, s: ModelState) -> bool {
        s.is_kind(self.id(), HandleKind::Program)
    }

    /// Builds a program from compiled stages: every stage is attached,
    /// the program is linked, and every stage is detached again, so no
    /// stage is retained by the result.  The modelled linker always
    /// succeeds; the fresh program is linked with exactly the given
    /// stages attached at link time, retains no stage afterwards, has no
    /// active uniform declared yet, and the stages stay live.
    pub fn from_shaders(d: &mut Driver, shaders: &[Shader]) -> (r: Result<Program, Error>)
        requires
            old(d)@.inv(),
            old(d)@.can_allocate(1),
            forall|i: int| 0 <= i < shaders@.len() ==> (#[trigger] shaders@[i]).is_live(old(d)@),
        ensures
            final(d)@.inv(),
            r is Ok,
            r matches Ok(p) ==> p.id() == old(d)@.next_handle && p.is_live(final(d)@) && final(d)@
                == (ModelState {
                handles: old(d)@.handles.insert(p.id(), HandleKind::Program),
                next_handle: (p.id() + 1) as u32,
                allocations: (old(d)@.allocations + 1) as u64,
                programs: old(d)@.programs.insert(
                    p.id(),
                    (ProgModel {
                        linked: true,
                        attached: Seq::empty(),
                        linked_with: shader_ids(shaders@),
                        uniforms: Seq::empty(),
                    }),
                ),
                ..old(d)@
            }),
            r matches Ok(p) ==> final(d)@.programs[p.id()].linked_with == shader_ids(shaders@),
    {
        let p = d.create_program();
        let ghost s0 = d@;
        let n = shaders.len();
        proof {
            assert(shader_ids(shaders@).take(0) =~= Seq::<u32>::empty());
            assert(s0.programs.insert(
                p,
                (ProgModel {
                    linked: false,
                    attached: Seq::empty(),
                    linked_with: Seq::empty(),
                    uniforms: Seq::empty(),
                }),
            ) =~~= s0.programs);
            assert(d@ =~~= (ModelState {
                programs: s0.programs.insert(
                    p,
                    (ProgModel {
                        linked: false,
                        attached: shader_ids(shaders@).take(0),
                        linked_with: Seq::empty(),
                        uniforms: Seq::empty(),
                    }),
                ),
                ..s0
            }));
        }
        let mut i: usize = 0;
        while i < n
            invariant
                n == shaders@.len(),
                i <= n,
                d@.inv(),
                s0.programs.contains_key(p),
                s0.programs[p] == (ProgModel {
                    linked: false,
                    attached: Seq::empty(),
                    linked_with: Seq::empty(),
                    uniforms: Seq::empty(),
                }),
                forall|k: int| 0 <= k < n ==> (#[trigger] shaders@[k]).is_live(s0),
                d@ == (ModelState {
                    programs: s0.programs.insert(
                        p,
                        (ProgModel {
                            linked: false,
                            attached: shader_ids(shaders@).take(i as int),
                            linked_with: Seq::empty(),
                            uniforms: Seq::empty(),
                        }),
                    ),
                    ..s0
                }),
            decreases n - i,
        {
            let s = &shaders[i];
            d.attach_shader(p, s.handle);
            proof {
                assert(shader_ids(shaders@).take(i as int).push(shaders@[i as int].id())
                    =~= shader_ids(shaders@).take(i + 1));
                assert(d@ =~~= (ModelState {
                    programs: s0.programs.insert(
                        p,
                        (ProgModel {
                            linked: false,
                            attached: shader_ids(shaders@).take(i + 1),
                            linked_with: Seq::empty(),
                            uniforms: Seq::empty(),
                        }),
                    ),
                    ..s0
                }));
            }
            i += 1;
        }
        d.link_program(p);
        proof {
            assert(shader_ids(shaders@).take(n as int) =~= shader_ids(shaders@));
            assert(d@ =~~= (ModelState {
                programs: s0.programs.insert(
                    p,
                    (ProgModel {
                        linked: true,
                        attached: shader_ids(shaders@).take(n as int),
                        linked_with: shader_ids(shaders@),
                        uniforms: Seq::empty(),
                    }),
                ),
                ..s0
            }));
        }
        let mut j: usize = n;
        while j > 0
            invariant
                n == shaders@.len(),
                j <= n,
                d@.inv(),
                s0.programs.contains_key(p),
                forall|k: int| 0 <= k < n ==> (#[trigger] shaders@[k]).is_live(s0),
                d@ == (ModelState {
                    programs: s0.programs.insert(
                        p,
                        (ProgModel {
                            linked: true,
                            attached: shader_ids(shaders@).take(j as int),
                            linked_with: shader_ids(shaders@),
                            uniforms: Seq::empty(),
                        }),
                    ),
                    ..s0
                }),
            decreases j,
        {
            let s = &shaders[j - 1];
            proof {
                assert(shader_ids(shaders@).take(j as int).last() == shaders@[j - 1].id());
            }
            d.detach_shader(p, s.handle);
            j -= 1;
            proof {
                assert(shader_ids(shaders@).take(j + 1).drop_last() =~= shader_ids(
                    shaders@,
                ).take(j as int));
                assert(d@ =~~= (ModelState {
                    programs: s0.programs.insert(
                        p,
                        (ProgModel {
                            linked: true,
                            attached: shader_ids(shaders@).take(j as int),
                            linked_with: shader_ids(shaders@),
                            uniforms: Seq::empty(),
                        }),
                    ),
                    ..s0
                }));
            }
        }
        proof {
            assert(shader_ids(shaders@).take(0) =~= Seq::<u32>::empty());
            assert(d@ =~~= (ModelState {
                handles: old(d)@.handles.insert(p, HandleKind::Program),
                next_handle: (p + 1) as u32,
                allocations: (old(d)@.allocations + 1) as u64,
                programs: old(d)@.programs.insert(
                    p,
                    (ProgModel {
                        linked: true,
                        attached: Seq::empty(),
                        linked_with: shader_ids(shaders@),
                        uniforms: Seq::empty(),
                    }),
                ),
                ..old(d)@
            }));
        }
        Ok(Program { handle: p })
    }

    /// Declares an active uniform under the given name: the model's
    /// stand-in for the uniforms a real linker extracts from the stage
    /// sources.  Declaring a name twice changes nothing.
    pub fn declare_uniform(&self, d: &mut Driver, name: &str)
        requires
            old(d)@.inv(),
            self.is_live(old(d)@),
            old(d)@.programs.contains_key(self.id()),
        ensures
            final(d)@.inv(),
            contains_name(old(d)@.programs[self.id()].uniforms, name@) ==> final(d)@ == old(d)@,
            !contains_name(old(d)@.programs[self.id()].uniforms, name@) ==> final(d)@
                == (ModelState {
                programs: old(d)@.programs.insert(
                    self.id(),
                    (ProgModel {
                        uniforms: old(d)@.programs[self.id()].uniforms.push(name@),
                        ..old(d)@.programs[self.id()]
                    }),
                ),
                ..old(d)@
            }),
    {
        d.declare_uniform(self.handle, name);
    }

    /// Installs this program as current for subsequent draw calls.
    /// Callers pair every `set_used` with a `detach` by the time the
    /// frame loop regains control, since the current program is shared
    /// state of the whole context.
    pub fn set_used(&self, d: &mut Driver)
        requires
            old(d)@.inv(),
            self.is_live(old(d)@),
        ensures
            final(d)@.inv(),
            final(d)@ == (ModelState { program: self.id(), ..old(d)@ }),
    {
        d.use_program(self.handle);
    }

    /// Resets the current program to "none".
    pub fn detach(&self, d: &mut Driver)
        requires
            old(d)@.inv(),
        ensures
            final(d)@.inv(),
            final(d)@ == (ModelState { program: 0u32, ..old(d)@ }),
    {
        d.use_program(0);
    }

    /// Resolves a uniform by name and writes to it: the shared upload
    /// path.  If the name resolves, the program becomes current and one
    /// write is counted; a name that does not resolve leaves the driver
    /// exactly as it was and reports the no-op with `None`.
    fn upload_named(&self, d: &mut Driver, name: &str) -> (r: Option<()>)
        requires
            old(d)@.inv(),
            self.is_live(old(d)@),
            old(d)@.programs.contains_key(self.id()),
        ensures
            final(d)@.inv(),
            r is Some <==> contains_name(old(d)@.programs[self.id()].uniforms, name@),
            r is Some ==> final(d)@ == (ModelState {
                program: self.id(),
                uniform_writes: inc_sat(old(d)@.uniform_writes),
                ..old(d)@
            }),
            r is None ==> final(d)@ == old(d)@,
    {
        match d.uniform_location(self.handle, name) {
            Some(slot) => {
                d.use_program(self.handle);
                d.upload_uniform(self.handle, slot);
                proof {
                    assert(final(d)@ =~~= (ModelState {
                        program: self.id(),
                        uniform_writes: inc_sat(old(d)@.uniform_writes),
                        ..old(d)@
                    }));
                }
                Some(())
            },
            None => None,
        }
    }

    /// Uploads a texture-unit index to the named sampler uniform; see
    /// [`Program::upload_named`] for the resolve-or-no-op contract.  The
    /// index value itself lives with the driver.
    #[allow(unused_variables)]
    pub fn upload_texture_slot(&self, d: &mut Driver, name: &str, slot: i32) -> (r: Option<()>)
        requires
            old(d)@.inv(),
            self.is_live(old(d)@),
            old(d)@.programs.contains_key(self.id()),
        ensures
            final(d)@.inv(),
            r is Some <==> contains_name(old(d)@.programs[self.id()].uniforms, name@),
            r is Some ==> final(d)@ == (ModelState {
                program: self.id(),
                uniform_writes: inc_sat(old(d)@.uniform_writes),
                ..old(d)@
            }),
            r is None ==> final(d)@ == old(d)@,
    {
        self.upload_named(d, name)
    }

    /// Uploads a 4-by-4 matrix to the named uniform; the numeric payload
    /// lives with the driver, and a name that does not resolve is a
    /// silent no-op that changes no driver state.
    pub fn upload_mat4(&self, d: &mut Driver, name: &str) -> (r: Option<()>)
        requires
            old(d)@.inv(),
            self.is_live(old(d)@),
            old(d)@.programs.contains_key(self.id()),
        ensures
            final(d)@.inv(),
            r is Some <==> contains_name(old(d)@.programs[self.id()].uniforms, name@),
            r is Some ==> final(d)@ == (ModelState {
                program: self.id(),
                uniform_writes: inc_sat(old(d)@.uniform_writes),
                ..old(d)@
            }),
            r is None ==> final(d)@ == old(d)@,
    {
        self.upload_named(d, name)
    }

    /// Uploads a 3-by-3 matrix to the named uniform; see
    /// [`Program::upload_mat4`].
    pub fn upload_mat3(&self, d: &mut Driver, name: &str) -> (r: Option<()>)
        requires
            old(d)@.inv(),
            self.is_live(old(d)@),
            old(d)@.programs.contains_key(self.id()),
        ensures
            final(d)@.inv(),
            r is Some <==> contains_name(old(d)@.programs[self.id()].uniforms, name@),
            r is Some ==> final(d)@ == (ModelState {
                program: self.id(),
                uniform_writes: inc_sat(old(d)@.uniform_writes),
                ..old(d)@
            }),
            r is None ==> final(d)@ == old(d)@,
    {
        self.upload_named(d, name)
    }

    /// Uploads a 2-component vector to the named uniform; see
    /// [`Program::upload_mat4`].
    pub fn upload_vec2(&self, d: &mut Driver, name: &str) -> (r: Option<()>)
        requires
            old(d)@.inv(),
            self.is_live(old(d)@),
            old(d)@.programs.contains_key(self.id()),
        ensures
            final(d)@.inv(),
            r is Some <==> contains_name(old(d)@.programs[self.id()].uniforms, name@),
            r is Some ==> final(d)@ == (ModelState {
                program: self.id(),
                uniform_writes: inc_sat(old(d)@.uniform_writes),
                ..old(d)@
            }),
            r is None ==> final(d)@ == old(d)@,
    {
        self.upload_named(d, name)
    }

    /// Uploads a 3-component vector to the named uniform; see
    /// [`Program::upload_mat4`].
    pub fn upload_vec3(&self, d: &mut Driver, name: &str) -> (r: Option<()>)
        requires
            old(d)@.inv(),
            self.is_live(old(d)@),
            old(d)@.programs.contains_key(self.id()),
        ensures
            final(d)@.inv(),
            r is Some <==> contains_name(old(d)@.programs[self.id()].uniforms, name@),
            r is Some ==> final(d)@ == (ModelState {
                program: self.id(),
                uniform_writes: inc_sat(old(d)@.uniform_writes),
                ..old(d)@
            }),
            r is None ==> final(d)@ == old(d)@,
    {
        self.upload_named(d, name)
    }

    /// Uploads a 3-component point to the named uniform, through the
    /// vector path; see [`Program::upload_mat4`].
    pub fn upload_point3(&self, d: &mut Driver, name: &str) -> (r: Option<()>)
        requires
            old(d)@.inv(),
            self.is_live(old(d)@),
            old(d)@.programs.contains_key(self.id()),
        ensures
            final(d)@.inv(),
            r is Some <==> contains_name(old(d)@.programs[self.id()].uniforms, name@),
            r is Some ==> final(d)@ == (ModelState {
                program: self.id(),
                uniform_writes: inc_sat(old(d)@.uniform_writes),
                ..old(d)@
            }),
            r is None ==> final(d)@ == old(d)@,
    {
        self.upload_vec3(d, name)
    }

    /// Uploads a 4-component vector to the named uniform; see
    /// [`Program::upload_mat4`].
    pub fn upload_vec4(&self, d: &mut Driver, name: &str) -> (r: Option<()>)
        requires
            old(d)@.inv(),
            self.is_live(old(d)@),
            old(d)@.programs.contains_key(self.id()),
        ensures
            final(d)@.inv(),
            r is Some <==> contains_name(old(d)@.programs[self.id()].uniforms, name@),
            r is Some ==> final(d)@ == (ModelState {
                program: self.id(),
                uniform_writes: inc_sat(old(d)@.uniform_writes),
                ..old(d)@
            }),
            r is None ==> final(d)@ == old(d)@,
    {
        self.upload_named(d, name)
    }

    /// Releases the owned handle.
    pub fn delete(self, d: &mut Driver)
        requires
            old(d)@.inv(),
            self.is_live(old(d)@),
        ensures
            final(d)@.inv(),
            final(d)@ == old(d)@.with_deleted(self.id()),
            !final(d)@.handles.contains_key(self.id()),
    {
        d.delete(self.handle);
    }
}

} // verus!
