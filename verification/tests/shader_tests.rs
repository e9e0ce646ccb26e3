//! Shader compilation, program building, and uniform upload.

use render_gl::driver::{Driver, ShaderKind};
use render_gl::shader::{Error, Program, Shader};

const VERT_SRC: &str = "void main() { gl_Position = vec4(0.0); }";
const FRAG_SRC: &str = "void main() { }";

/// Compiling a deliberately invalid (empty) fragment source returns a
/// compile error carrying a non-empty diagnostic, and allocates nothing.
#[test]
fn invalid_fragment_source_is_a_compile_error() {
    let mut d = Driver::new();
    let r = Shader::from_frag_source(&mut d, "", "triangle.frag");
    match r {
        Err(Error::CompileError { message }) => {
            assert_eq!(message, "triangle.fragthe stage source is empty");
        }
        _ => panic!("an empty source must fail to compile"),
    }
    assert_eq!(d.allocation_count(), 0);
}

/// A non-empty source compiles into a live shader of its stage.
#[test]
fn sources_compile() {
    let mut d = Driver::new();
    let vert = Shader::from_vert_source(&mut d, VERT_SRC, "triangle.vert").unwrap();
    let frag = Shader::from_frag_source(&mut d, FRAG_SRC, "triangle.frag").unwrap();
    assert!(d.handle_is_live(vert.handle()));
    assert!(d.handle_is_live(frag.handle()));
    assert_eq!(d.allocation_count(), 2);
}

/// Building a program links the stages and retains none of them: both
/// shaders may be released right afterwards.
#[test]
fn from_shaders_builds_and_releases_stages() {
    let mut d = Driver::new();
    let vert = Shader::from_vert_source(&mut d, VERT_SRC, "triangle.vert").unwrap();
    let frag = Shader::from_frag_source(&mut d, FRAG_SRC, "triangle.frag").unwrap();
    let stages = [vert, frag];
    let program = Program::from_shaders(&mut d, &stages).unwrap();
    assert!(d.handle_is_live(program.handle()));
    let [vert, frag] = stages;
    vert.delete(&mut d);
    frag.delete(&mut d);
    assert!(d.handle_is_live(program.handle()));
    program.set_used(&mut d);
    assert_eq!(d.current_program(), program.handle());
    program.detach(&mut d);
    assert_eq!(d.current_program(), 0);
}

/// Uploading to a uniform name that does not resolve returns without
/// error and mutates no driver state; a declared name resolves and
/// counts one write.
#[test]
fn missing_uniform_is_a_silent_no_op() {
    let mut d = Driver::new();
    let vert = Shader::from_vert_source(&mut d, VERT_SRC, "triangle.vert").unwrap();
    let frag = Shader::from_frag_source(&mut d, FRAG_SRC, "triangle.frag").unwrap();
    let program = Program::from_shaders(&mut d, &[vert, frag]).unwrap();
    let allocations = d.allocation_count();

    assert_eq!(program.upload_mat4(&mut d, "nonexistent_uniform"), None);
    assert_eq!(d.uniform_write_count(), 0);
    assert_eq!(d.current_program(), 0);
    assert_eq!(d.allocation_count(), allocations);

    program.declare_uniform(&mut d, "mvp");
    assert_eq!(program.upload_mat4(&mut d, "mvp"), Some(()));
    assert_eq!(d.uniform_write_count(), 1);
    assert_eq!(d.current_program(), program.handle());
    program.detach(&mut d);

    assert_eq!(program.upload_vec3(&mut d, "missing_light"), None);
    assert_eq!(d.uniform_write_count(), 1);
    assert_eq!(d.current_program(), 0);
}

/// Every upload flavour shares the resolve-or-no-op behaviour.
#[test]
fn upload_flavours_share_the_protocol() {
    let mut d = Driver::new();
    let vert = Shader::from_vert_source(&mut d, VERT_SRC, "quad.vert").unwrap();
    let program = Program::from_shaders(&mut d, &[vert]).unwrap();
    program.declare_uniform(&mut d, "a");
    assert_eq!(program.upload_texture_slot(&mut d, "a", 0), Some(()));
    assert_eq!(program.upload_mat3(&mut d, "a"), Some(()));
    assert_eq!(program.upload_vec2(&mut d, "a"), Some(()));
    assert_eq!(program.upload_vec4(&mut d, "a"), Some(()));
    assert_eq!(program.upload_point3(&mut d, "a"), Some(()));
    assert_eq!(d.uniform_write_count(), 5);
    assert_eq!(program.upload_texture_slot(&mut d, "b", 1), None);
    assert_eq!(d.uniform_write_count(), 5);
}

/// The stage for a resource name follows its extension; an unknown
/// extension is rejected with the offending name.
#[test]
fn kind_for_resource_name_follows_extension() {
    assert_eq!(
        Shader::kind_for_resource_name("shaders/scene.vert").unwrap(),
        ShaderKind::Vertex
    );
    assert_eq!(
        Shader::kind_for_resource_name("shaders/scene.frag").unwrap(),
        ShaderKind::Fragment
    );
    match Shader::kind_for_resource_name("shaders/scene.glsl") {
        Err(Error::CanNotDetermineShaderTypeForResource { name }) => {
            assert_eq!(name, "shaders/scene.glsl");
        }
        _ => panic!("an unknown extension must be rejected"),
    }
    assert!(Shader::kind_for_resource_name("vert").is_err());
}

/// Error descriptions name the failure, the resource, and the cause.
#[test]
fn shader_error_messages_describe_the_failure() {
    let compile = Error::CompileError {
        message: "0:1 syntax error".to_string(),
    };
    assert_eq!(compile.message(), "shader compilation failed: 0:1 syntax error");
    let link = Error::LinkError {
        message: "undefined reference".to_string(),
    };
    assert_eq!(link.message(), "program linking failed: undefined reference");
    let load = Error::ResourceLoad {
        name: "shaders/scene.vert".to_string(),
        inner: render_gl::resources::Error::FileContainsNil,
    };
    assert_eq!(
        load.message(),
        "failed to load shader resource shaders/scene.vert: the resource contains a zero byte"
    );
    let kind = Error::CanNotDetermineShaderTypeForResource {
        name: "scene.glsl".to_string(),
    };
    assert_eq!(
        kind.message(),
        "cannot determine the shader type for resource scene.glsl"
    );
}
