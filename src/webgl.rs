use vstd::prelude::*;
use crate::context::{GlCall, GlContext};
use crate::shader::ShaderKind;
use web_sys::{WebGlProgram, WebGlRenderingContext, WebGlShader};

verus! {

// The browser's WebGL objects, reached through web-sys. Every call below is
// answered by the browser, so the wrappers promise nothing of their results;
// outside a wasm32 host web-sys panics on each of them.

#[verifier::external_type_specification]
#[verifier::external_body]
pub struct ExWebGlRenderingContext(WebGlRenderingContext);

#[verifier::external_type_specification]
#[verifier::external_body]
pub struct ExWebGlShader(WebGlShader);

#[verifier::external_type_specification]
#[verifier::external_body]
pub struct ExWebGlProgram(WebGlProgram);

/// Relies on `WebGlRenderingContext::create_shader`: a new shader object of the given type, if any.
#[verifier::external_body]
fn gl_create_shader(gl: &WebGlRenderingContext, type_: u32) -> Option<WebGlShader> {
    gl.create_shader(type_)
}

/// Relies on `WebGlRenderingContext::shader_source`: sets a shader object's source text.
#[verifier::external_body]
fn gl_shader_source(gl: &WebGlRenderingContext, shader: &WebGlShader, source: &str) {
    gl.shader_source(shader, source)
}

/// Relies on `WebGlRenderingContext::compile_shader`: compiles a shader object.
#[verifier::external_body]
fn gl_compile_shader(gl: &WebGlRenderingContext, shader: &WebGlShader) {
    gl.compile_shader(shader)
}

/// Relies on `WebGlRenderingContext::get_shader_parameter` with `COMPILE_STATUS`,
/// read through `JsValue::as_bool`: `None` where the answer is not a boolean.
#[verifier::external_body]
fn gl_shader_compile_status(gl: &WebGlRenderingContext, shader: &WebGlShader) -> Option<bool> {
    gl.get_shader_parameter(shader, WebGlRenderingContext::COMPILE_STATUS).as_bool()
}

/// Relies on `WebGlRenderingContext::get_shader_info_log`: a shader object's diagnostic.
#[verifier::external_body]
fn gl_shader_info_log(gl: &WebGlRenderingContext, shader: &WebGlShader) -> Option<String> {
    gl.get_shader_info_log(shader)
}

/// Relies on `WebGlRenderingContext::delete_shader`: releases a shader object.
#[verifier::external_body]
fn gl_delete_shader(gl: &WebGlRenderingContext, shader: WebGlShader) {
    gl.delete_shader(Some(&shader))
}

/// Relies on `WebGlRenderingContext::create_program`: a new program object, if any.
#[verifier::external_body]
fn gl_create_program(gl: &WebGlRenderingContext) -> Option<WebGlProgram> {
    gl.create_program()
}

/// Relies on `WebGlRenderingContext::attach_shader`: attaches a shader to a program.
#[verifier::external_body]
fn gl_attach_shader(gl: &WebGlRenderingContext, program: &WebGlProgram, shader: &WebGlShader) {
    gl.attach_shader(program, shader)
}

/// Relies on `WebGlRenderingContext::link_program`: links a program object.
#[verifier::external_body]
fn gl_link_program(gl: &WebGlRenderingContext, program: &WebGlProgram) {
    gl.link_program(program)
}

/// Relies on `WebGlRenderingContext::get_program_parameter` with `LINK_STATUS`,
/// read through `JsValue::as_bool`: `None` where the answer is not a boolean.
#[verifier::external_body]
fn gl_program_link_status(gl: &WebGlRenderingContext, program: &WebGlProgram) -> Option<bool> {
    gl.get_program_parameter(program, WebGlRenderingContext::LINK_STATUS).as_bool()
}

/// Relies on `WebGlRenderingContext::get_program_info_log`: a program object's diagnostic.
#[verifier::external_body]
fn gl_program_info_log(gl: &WebGlRenderingContext, program: &WebGlProgram) -> Option<String> {
    gl.get_program_info_log(program)
}

/// Relies on `WebGlRenderingContext::delete_program`: releases a program object.
#[verifier::external_body]
fn gl_delete_program(gl: &WebGlRenderingContext, program: WebGlProgram) {
    gl.delete_program(Some(&program))
}

/// A status query counts as success only when the context answers `true`.
pub fn status_succeeded(status: Option<bool>) -> (r: bool)
    ensures
        r == (status == Some(true)),
{
    match status {
        Some(b) => b,
        None => false,
    }
}

/// A WebGL context together with the history of the calls made on it.
pub struct WebGl {
    gl: WebGlRenderingContext,
    log: Ghost<Seq<GlCall<WebGlShader, WebGlProgram>>>,
}

impl WebGl {
    pub fn new(gl: WebGlRenderingContext) -> (r: Self)
        ensures
            r.calls() == Seq::<GlCall<WebGlShader, WebGlProgram>>::empty(),
    {
        WebGl { gl, log: Ghost(Seq::empty()) }
    }

    /// The underlying WebGL context, for drawing.
    pub fn context(&self) -> &WebGlRenderingContext {
        &self.gl
    }
}

impl GlContext for WebGl {
    type ShaderHandle = WebGlShader;

    type ProgramHandle = WebGlProgram;

    closed spec fn calls(&self) -> Seq<GlCall<WebGlShader, WebGlProgram>> {
        self.log@
    }

    fn create_shader(&mut self, kind: ShaderKind) -> (r: Option<WebGlShader>) {
        let r = gl_create_shader(&self.gl, kind.as_u32());
        self.log = Ghost(self.log@.push(GlCall::CreateShader { kind, result: r }));
        r
    }

    fn shader_source(&mut self, shader: &WebGlShader, src: &str) {
        gl_shader_source(&self.gl, shader, src);
        self.log = Ghost(self.log@.push(GlCall::ShaderSource { shader: *shader, src: src@ }));
    }

    fn compile_shader(&mut self, shader: &WebGlShader) {
        gl_compile_shader(&self.gl, shader);
        self.log = Ghost(self.log@.push(GlCall::CompileShader { shader: *shader }));
    }

    fn shader_compile_status(&mut self, shader: &WebGlShader) -> (r: bool) {
        let r = status_succeeded(gl_shader_compile_status(&self.gl, shader));
        self.log = Ghost(self.log@.push(GlCall::ShaderCompileStatus { shader: *shader, result: r }));
        r
    }

    fn shader_info_log(&mut self, shader: &WebGlShader) -> (r: Option<String>) {
        let r = gl_shader_info_log(&self.gl, shader);
        self.log = Ghost(self.log@.push(GlCall::ShaderInfoLog { shader: *shader, result: r }));
        r
    }

    fn delete_shader(&mut self, shader: WebGlShader) {
        let ghost h = shader;
        gl_delete_shader(&self.gl, shader);
        self.log = Ghost(self.log@.push(GlCall::DeleteShader { shader: h }));
    }

    fn create_program(&mut self) -> (r: Option<WebGlProgram>) {
        let r = gl_create_program(&self.gl);
        self.log = Ghost(self.log@.push(GlCall::CreateProgram { result: r }));
        r
    }

    fn attach_shader(&mut self, program: &WebGlProgram, shader: &WebGlShader) {
        gl_attach_shader(&self.gl, program, shader);
        self.log = Ghost(self.log@.push(GlCall::AttachShader { program: *program, shader: *shader }));
    }

    fn link_program(&mut self, program: &WebGlProgram) {
        gl_link_program(&self.gl, program);
        self.log = Ghost(self.log@.push(GlCall::LinkProgram { program: *program }));
    }

    fn program_link_status(&mut self, program: &WebGlProgram) -> (r: bool) {
        let r = status_succeeded(gl_program_link_status(&self.gl, program));
        self.log = Ghost(self.log@.push(GlCall::ProgramLinkStatus { program: *program, result: r }));
        r
    }

    fn program_info_log(&mut self, program: &WebGlProgram) -> (r: Option<String>) {
        let r = gl_program_info_log(&self.gl, program);
        self.log = Ghost(self.log@.push(GlCall::ProgramInfoLog { program: *program, result: r }));
        r
    }

    fn delete_program(&mut self, program: WebGlProgram) {
        let ghost p = program;
        gl_delete_program(&self.gl, program);
        self.log = Ghost(self.log@.push(GlCall::DeleteProgram { program: p }));
    }
}

} // verus!
