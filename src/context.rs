use vstd::prelude::*;
use crate::shader::ShaderKind;

verus! {

/// One call made on a graphics context, with the answer it gave. A context's
/// history of these is the model that the pipeline's contracts speak of.
#[allow(inconsistent_fields)]
pub enum GlCall<S, P> {
    CreateShader { kind: ShaderKind, result: Option<S> },
    ShaderSource { shader: S, src: Seq<char> },
    CompileShader { shader: S },
    ShaderCompileStatus { shader: S, result: bool },
    ShaderInfoLog { shader: S, result: Option<String> },
    DeleteShader { shader: S },
    CreateProgram { result: Option<P> },
    AttachShader { program: P, shader: S },
    LinkProgram { program: P },
    ProgramLinkStatus { program: P, result: bool },
    ProgramInfoLog { program: P, result: Option<String> },
    DeleteProgram { program: P },
}

/// The capabilities of a graphics context that the compilation pipeline uses.
///
/// Shader and program objects live in the context; the handles only refer
/// to them. Every answer is the context's own: a method promises only that
/// the call, with its arguments and its answer, is appended to `calls`.
pub trait GlContext {
    /// Refers to a shader object of the context.
    type ShaderHandle;

    /// Refers to a program object of the context.
    type ProgramHandle;

    /// The calls made on this context so far, oldest first.
    closed spec fn calls(&self) -> Seq<GlCall<Self::ShaderHandle, Self::ProgramHandle>> {
        Seq::empty()
    }

    /// Creates a shader object of the given kind, or `None` when the context refuses.
    fn create_shader(&mut self, kind: ShaderKind) -> (r: Option<Self::ShaderHandle>)
        ensures
            final(self).calls() == old(self).calls().push(GlCall::CreateShader { kind, result: r }),
    ;

    /// Replaces the source text of a shader object.
    fn shader_source(&mut self, shader: &Self::ShaderHandle, src: &str)
        ensures
            final(self).calls() == old(self).calls().push(
                GlCall::ShaderSource { shader: *shader, src: src@ },
            ),
    ;

    /// Compiles the source text of a shader object.
    fn compile_shader(&mut self, shader: &Self::ShaderHandle)
        ensures
            final(self).calls() == old(self).calls().push(GlCall::CompileShader { shader: *shader }),
    ;

    /// Whether the last compilation of a shader object succeeded.
    fn shader_compile_status(&mut self, shader: &Self::ShaderHandle) -> (r: bool)
        ensures
            final(self).calls() == old(self).calls().push(
                GlCall::ShaderCompileStatus { shader: *shader, result: r },
            ),
    ;

    /// The compiler's diagnostic for a shader object, if the context has one.
    fn shader_info_log(&mut self, shader: &Self::ShaderHandle) -> (r: Option<String>)
        ensures
            final(self).calls() == old(self).calls().push(
                GlCall::ShaderInfoLog { shader: *shader, result: r },
            ),
    ;

    /// Releases a shader object back to the context.
    fn delete_shader(&mut self, shader: Self::ShaderHandle)
        ensures
            final(self).calls() == old(self).calls().push(GlCall::DeleteShader { shader }),
    ;

    /// Creates a program object, or `None` when the context refuses.
    fn create_program(&mut self) -> (r: Option<Self::ProgramHandle>)
        ensures
            final(self).calls() == old(self).calls().push(GlCall::CreateProgram { result: r }),
    ;

    /// Attaches a shader object to a program object.
    fn attach_shader(&mut self, program: &Self::ProgramHandle, shader: &Self::ShaderHandle)
        ensures
            final(self).calls() == old(self).calls().push(
                GlCall::AttachShader { program: *program, shader: *shader },
            ),
    ;

    /// Links the shaders attached to a program object.
    fn link_program(&mut self, program: &Self::ProgramHandle)
        ensures
            final(self).calls() == old(self).calls().push(GlCall::LinkProgram { program: *program }),
    ;

    /// Whether the last link of a program object succeeded.
    fn program_link_status(&mut self, program: &Self::ProgramHandle) -> (r: bool)
        ensures
            final(self).calls() == old(self).calls().push(
                GlCall::ProgramLinkStatus { program: *program, result: r },
            ),
    ;

    /// The linker's diagnostic for a program object, if the context has one.
    fn program_info_log(&mut self, program: &Self::ProgramHandle) -> (r: Option<String>)
        ensures
            final(self).calls() == old(self).calls().push(
                GlCall::ProgramInfoLog { program: *program, result: r },
            ),
    ;

    /// Releases a program object back to the context.
    fn delete_program(&mut self, program: Self::ProgramHandle)
        ensures
            final(self).calls() == old(self).calls().push(GlCall::DeleteProgram { program }),
    ;
}

} // verus!
