use vstd::prelude::*;
use crate::context::GlContext;
use crate::error::{CompileError, LinkError};
use crate::mesh::Mesh;
use crate::mesh::stages::{
    compile_shader_pair, link_calls, link_result, link_shaders, pair_calls, pair_result,
    LinkAnswers, ShaderAnswers,
};
use crate::mesh::state::{Initialized, MeshState, ProgramLinked, ShadersCompiled};
use crate::shader::Shader;

verus! {

/// Builds a [`Mesh`] in stages. The stage is the type parameter `S`, so a
/// program cannot be linked before its shaders compile, nor a mesh be
/// finalized before its program links.
pub struct MeshBuilder<'a, G: GlContext, S: MeshState> {
    gl: &'a mut G,
    state: S,
}

impl<'a, G: GlContext, S: MeshState> MeshBuilder<'a, G, S> {
    /// The borrowed graphics context, handed on from stage to stage.
    pub closed spec fn spec_context(&self) -> &'a mut G {
        self.gl
    }

    /// What the current stage holds.
    pub closed spec fn spec_state(&self) -> S {
        self.state
    }
}

impl<'a, G: GlContext> MeshBuilder<'a, G, Initialized> {
    pub fn new(gl: &'a mut G) -> (r: Self)
        ensures
            *r.spec_context() == *old(gl),
            *final(r.spec_context()) == *final(gl),
    {
        MeshBuilder { gl, state: Initialized }
    }

    /// Compiles the vertex shader, then the fragment shader (see
    /// [`compile_shader_pair`]). On success the next stage holds both objects.
    pub fn compile_shaders(self, vertex_shader: Shader, fragment_shader: Shader) -> (r: Result<
        MeshBuilder<'a, G, ShadersCompiled<G::ShaderHandle>>,
        CompileError,
    >)
        ensures
            exists|va: ShaderAnswers<G::ShaderHandle>, fa: ShaderAnswers<G::ShaderHandle>|
                {
                    let calls = self.spec_context().calls() + pair_calls::<
                        G::ShaderHandle,
                        G::ProgramHandle,
                    >(
                        vertex_shader.spec_kind(),
                        vertex_shader.spec_src(),
                        fragment_shader.spec_kind(),
                        fragment_shader.spec_src(),
                        va,
                        fa,
                    );
                    let expected = #[trigger] pair_result(
                        vertex_shader.spec_kind(),
                        fragment_shader.spec_kind(),
                        va,
                        fa,
                    );
                    match r {
                        Ok(b) => {
                            &&& b.spec_context().calls() == calls
                            &&& *final(b.spec_context()) == *final(self.spec_context())
                            &&& expected == Ok::<(G::ShaderHandle, G::ShaderHandle), CompileError>(
                                (b.spec_state().vertex_shader, b.spec_state().fragment_shader),
                            )
                        },
                        Err(e) => {
                            &&& final(self.spec_context()).calls() == calls
                            &&& expected == Err::<(G::ShaderHandle, G::ShaderHandle), CompileError>(e)
                        },
                    }
                },
    {
        let gl = self.gl;
        match compile_shader_pair(gl, &vertex_shader, &fragment_shader) {
            Ok((v, f)) => {
                let state = ShadersCompiled { vertex_shader: v, fragment_shader: f };
                Ok(MeshBuilder { gl, state })
            },
            Err(e) => Err(e),
        }
    }
}

impl<'a, G: GlContext> MeshBuilder<'a, G, ShadersCompiled<G::ShaderHandle>> {
    /// Links the two compiled shaders into a program (see [`link_shaders`]).
    /// On success the next stage holds the linked program.
    pub fn link_program(self) -> (r: Result<MeshBuilder<'a, G, ProgramLinked<G::ProgramHandle>>, LinkError>)
        ensures
            exists|a: LinkAnswers<G::ProgramHandle>|
                {
                    &&& #[trigger] link_result(a) == match r {
                        Ok(b) => Ok::<G::ProgramHandle, LinkError>(b.spec_state().program),
                        Err(e) => Err::<G::ProgramHandle, LinkError>(e),
                    }
                    &&& match r {
                        Ok(b) => {
                            &&& b.spec_context().calls() == self.spec_context().calls() + link_calls(
                                self.spec_state().vertex_shader,
                                self.spec_state().fragment_shader,
                                a,
                            )
                            &&& *final(b.spec_context()) == *final(self.spec_context())
                        },
                        Err(_) => final(self.spec_context()).calls() == self.spec_context().calls()
                            + link_calls(
                            self.spec_state().vertex_shader,
                            self.spec_state().fragment_shader,
                            a,
                        ),
                    }
                },
    {
        let gl = self.gl;
        let ShadersCompiled { vertex_shader, fragment_shader } = self.state;
        let linked = link_shaders(gl, vertex_shader, fragment_shader);
        match linked {
            Ok(program) => Ok(MeshBuilder { gl, state: ProgramLinked { program } }),
            Err(e) => Err(e),
        }
    }
}

impl<'a, G: GlContext> MeshBuilder<'a, G, ProgramLinked<G::ProgramHandle>> {
    /// Hands the context and the linked program over to a [`Mesh`].
    pub fn finalize(self) -> (r: Mesh<'a, G>)
        ensures
            *r.spec_context() == *self.spec_context(),
            *final(r.spec_context()) == *final(self.spec_context()),
            r.spec_program() == self.spec_state().program,
    {
        let ProgramLinked { program } = self.state;
        Mesh::from_parts(self.gl, program)
    }
}

} // verus!
