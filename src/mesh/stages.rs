use vstd::prelude::*;
use crate::context::{GlCall, GlContext};
use crate::error::{CompileError, LinkError};
use crate::shader::{Shader, ShaderKind};

verus! {

/// What a context answered while one shader was being compiled: the object
/// it created (if any), its compile status and its diagnostic.
pub struct ShaderAnswers<S> {
    pub created: Option<S>,
    pub compiled: bool,
    pub log: Option<String>,
}

/// What a context answered while a program was being linked.
pub struct LinkAnswers<P> {
    pub created: Option<P>,
    pub linked: bool,
    pub log: Option<String>,
}

/// The calls that compiling `src` as a `kind` shader makes, given the answers:
/// create, upload, compile and query; on a failed compilation, read the
/// diagnostic and release the object.
pub open spec fn shader_calls<S, P>(kind: ShaderKind, src: Seq<char>, a: ShaderAnswers<S>) -> Seq<
    GlCall<S, P>,
> {
    match a.created {
        None => seq![GlCall::CreateShader { kind, result: None }],
        Some(h) => {
            let run = seq![
                GlCall::CreateShader { kind, result: Some(h) },
                GlCall::ShaderSource { shader: h, src },
                GlCall::CompileShader { shader: h },
                GlCall::ShaderCompileStatus { shader: h, result: a.compiled },
            ];
            if a.compiled {
                run
            } else {
                run.push(GlCall::ShaderInfoLog { shader: h, result: a.log }).push(
                    GlCall::DeleteShader { shader: h },
                )
            }
        },
    }
}

/// The result of compiling one shader, given the answers.
pub open spec fn shader_result<S>(kind: ShaderKind, a: ShaderAnswers<S>) -> Result<S, CompileError> {
    match a.created {
        None => Err(CompileError::AllocationFailed { kind }),
        Some(h) => if a.compiled {
            Ok(h)
        } else {
            Err(CompileError::CompileFailed { kind, log: a.log })
        },
    }
}

/// The calls that compiling a vertex and a fragment shader makes: the
/// fragment shader only once the vertex shader compiled, and the vertex
/// shader released when the fragment shader fails.
pub open spec fn pair_calls<S, P>(
    vertex: ShaderKind,
    vertex_src: Seq<char>,
    fragment: ShaderKind,
    fragment_src: Seq<char>,
    va: ShaderAnswers<S>,
    fa: ShaderAnswers<S>,
) -> Seq<GlCall<S, P>> {
    let vrun = shader_calls::<S, P>(vertex, vertex_src, va);
    match shader_result(vertex, va) {
        Err(_) => vrun,
        Ok(vh) => {
            let both = vrun + shader_calls::<S, P>(fragment, fragment_src, fa);
            match shader_result(fragment, fa) {
                Err(_) => both.push(GlCall::DeleteShader { shader: vh }),
                Ok(_) => both,
            }
        },
    }
}

/// The result of compiling a vertex and a fragment shader: the first failure,
/// else both objects.
pub open spec fn pair_result<S>(
    vertex: ShaderKind,
    fragment: ShaderKind,
    va: ShaderAnswers<S>,
    fa: ShaderAnswers<S>,
) -> Result<(S, S), CompileError> {
    match shader_result(vertex, va) {
        Err(e) => Err(e),
        Ok(vh) => match shader_result(fragment, fa) {
            Err(e) => Err(e),
            Ok(fh) => Ok((vh, fh)),
        },
    }
}

/// The calls that linking two compiled shaders makes: create a program,
/// attach vertex then fragment, link and query; on any failure release the
/// program and both shaders.
pub open spec fn link_calls<S, P>(vertex: S, fragment: S, a: LinkAnswers<P>) -> Seq<GlCall<S, P>> {
    match a.created {
        None => seq![
            GlCall::CreateProgram { result: None },
            GlCall::DeleteShader { shader: vertex },
            GlCall::DeleteShader { shader: fragment },
        ],
        Some(p) => {
            let run = seq![
                GlCall::CreateProgram { result: Some(p) },
                GlCall::AttachShader { program: p, shader: vertex },
                GlCall::AttachShader { program: p, shader: fragment },
                GlCall::LinkProgram { program: p },
                GlCall::ProgramLinkStatus { program: p, result: a.linked },
            ];
            if a.linked {
                run
            } else {
                run + seq![
                    GlCall::ProgramInfoLog { program: p, result: a.log },
                    GlCall::DeleteProgram { program: p },
                    GlCall::DeleteShader { shader: vertex },
                    GlCall::DeleteShader { shader: fragment },
                ]
            }
        },
    }
}

/// The result of linking, given the answers.
pub open spec fn link_result<P>(a: LinkAnswers<P>) -> Result<P, LinkError> {
    match a.created {
        None => Err(LinkError::AllocationFailed),
        Some(p) => if a.linked {
            Ok(p)
        } else {
            Err(LinkError::LinkFailed { log: a.log })
        },
    }
}

/// Decides the compile stage for one shader from the context's answers.
pub fn shader_outcome(kind: ShaderKind, created: bool, compiled: bool, log: Option<String>) -> (r:
    Result<(), CompileError>)
    ensures
        !created ==> r == Err::<(), CompileError>(CompileError::AllocationFailed { kind }),
        created && compiled ==> r is Ok,
        created && !compiled ==> r == Err::<(), CompileError>(
            CompileError::CompileFailed { kind, log },
        ),
{
    if !created {
        Err(CompileError::AllocationFailed { kind })
    } else if compiled {
        Ok(())
    } else {
        Err(CompileError::CompileFailed { kind, log })
    }
}

/// Decides the link stage from the context's answers.
pub fn link_outcome(created: bool, linked: bool, log: Option<String>) -> (r: Result<(), LinkError>)
    ensures
        !created ==> r == Err::<(), LinkError>(LinkError::AllocationFailed),
        created && linked ==> r is Ok,
        created && !linked ==> r == Err::<(), LinkError>(LinkError::LinkFailed { log }),
{
    if !created {
        Err(LinkError::AllocationFailed)
    } else if linked {
        Ok(())
    } else {
        Err(LinkError::LinkFailed { log })
    }
}

/// Creates a shader object for `shader`, uploads its source and compiles it.
/// A failed compilation releases the object and returns the diagnostic.
pub fn compile_shader<G: GlContext>(gl: &mut G, shader: &Shader) -> (r: Result<
    G::ShaderHandle,
    CompileError,
>)
    ensures
        exists|a: ShaderAnswers<G::ShaderHandle>|
            {
                &&& final(gl).calls() == old(gl).calls() + shader_calls::<
                    G::ShaderHandle,
                    G::ProgramHandle,
                >(shader.spec_kind(), shader.spec_src(), a)
                &&& r == shader_result(shader.spec_kind(), a)
            },
{
    let kind = shader.kind();
    let created = gl.create_shader(kind);
    let h = match created {
        Some(h) => h,
        None => {
            let r = shader_outcome(kind, false, false, None);
            let ghost a = ShaderAnswers { created: None, compiled: false, log: None };
            assert(gl.calls() =~= old(gl).calls() + shader_calls::<
                G::ShaderHandle,
                G::ProgramHandle,
            >(kind, shader.spec_src(), a));
            let res = match r {
                Ok(()) => Err(CompileError::AllocationFailed { kind }),
                Err(e) => Err(e),
            };
            assert(res == shader_result(shader.spec_kind(), a));
            return res;
        },
    };
    gl.shader_source(&h, shader.use_src());
    gl.compile_shader(&h);
    let compiled = gl.shader_compile_status(&h);
    if compiled {
        let r = shader_outcome(kind, true, true, None);
        let ghost a = ShaderAnswers { created: Some(h), compiled: true, log: None };
        assert(gl.calls() =~= old(gl).calls() + shader_calls::<
            G::ShaderHandle,
            G::ProgramHandle,
        >(kind, shader.spec_src(), a));
        assert(r is Ok);
        let res = Ok(h);
        assert(res == shader_result(shader.spec_kind(), a));
        return res;
    }
    let log = gl.shader_info_log(&h);
    let ghost a = ShaderAnswers { created: Some(h), compiled: false, log };
    let r = shader_outcome(kind, true, false, log);
    gl.delete_shader(h);
    assert(gl.calls() =~= old(gl).calls() + shader_calls::<G::ShaderHandle, G::ProgramHandle>(
        kind,
        shader.spec_src(),
        a,
    ));
    let res = match r {
        Ok(()) => Err(CompileError::CompileFailed { kind, log: None }),
        Err(e) => Err(e),
    };
    assert(res == shader_result(shader.spec_kind(), a));
    res
}

/// Compiles the vertex shader, then the fragment shader. The first failure is
/// returned, after every shader object created here has been released.
pub fn compile_shader_pair<G: GlContext>(gl: &mut G, vertex: &Shader, fragment: &Shader) -> (r:
    Result<(G::ShaderHandle, G::ShaderHandle), CompileError>)
    ensures
        exists|va: ShaderAnswers<G::ShaderHandle>, fa: ShaderAnswers<G::ShaderHandle>|
            {
                &&& final(gl).calls() == old(gl).calls() + pair_calls::<
                    G::ShaderHandle,
                    G::ProgramHandle,
                >(vertex.spec_kind(), vertex.spec_src(), fragment.spec_kind(), fragment.spec_src(), va, fa)
                &&& r == pair_result(vertex.spec_kind(), fragment.spec_kind(), va, fa)
            },
{
    let ghost c0 = gl.calls();
    let v = compile_shader(gl, vertex);
    let ghost va = choose|a: ShaderAnswers<G::ShaderHandle>|
        {
            &&& gl.calls() == c0 + shader_calls::<G::ShaderHandle, G::ProgramHandle>(
                vertex.spec_kind(),
                vertex.spec_src(),
                a,
            )
            &&& v == shader_result(vertex.spec_kind(), a)
        };
    let vh = match v {
        Ok(vh) => vh,
        Err(e) => {
            let res = Err(e);
            assert(gl.calls() =~= c0 + pair_calls::<G::ShaderHandle, G::ProgramHandle>(
                vertex.spec_kind(),
                vertex.spec_src(),
                fragment.spec_kind(),
                fragment.spec_src(),
                va,
                va,
            ));
            assert(res == pair_result(vertex.spec_kind(), fragment.spec_kind(), va, va));
            return res;
        },
    };
    let ghost c1 = gl.calls();
    let f = compile_shader(gl, fragment);
    let ghost fa = choose|a: ShaderAnswers<G::ShaderHandle>|
        {
            &&& gl.calls() == c1 + shader_calls::<G::ShaderHandle, G::ProgramHandle>(
                fragment.spec_kind(),
                fragment.spec_src(),
                a,
            )
            &&& f == shader_result(fragment.spec_kind(), a)
        };
    match f {
        Ok(fh) => {
            let res = Ok((vh, fh));
            assert(gl.calls() =~= c0 + pair_calls::<G::ShaderHandle, G::ProgramHandle>(
                vertex.spec_kind(),
                vertex.spec_src(),
                fragment.spec_kind(),
                fragment.spec_src(),
                va,
                fa,
            ));
            assert(res == pair_result(vertex.spec_kind(), fragment.spec_kind(), va, fa));
            res
        },
        Err(e) => {
            gl.delete_shader(vh);
            let res = Err(e);
            assert(gl.calls() =~= c0 + pair_calls::<G::ShaderHandle, G::ProgramHandle>(
                vertex.spec_kind(),
                vertex.spec_src(),
                fragment.spec_kind(),
                fragment.spec_src(),
                va,
                fa,
            ));
            assert(res == pair_result(vertex.spec_kind(), fragment.spec_kind(), va, fa));
            res
        },
    }
}

/// Attaches both shaders, vertex first, to a new program object and links it.
/// On failure the program, if one was created, and both shaders are released.
pub fn link_shaders<G: GlContext>(gl: &mut G, vertex: G::ShaderHandle, fragment: G::ShaderHandle) -> (r:
    Result<G::ProgramHandle, LinkError>)
    ensures
        exists|a: LinkAnswers<G::ProgramHandle>|
            {
                &&& final(gl).calls() == old(gl).calls() + link_calls(vertex, fragment, a)
                &&& r == link_result(a)
            },
{
    let ghost vs = vertex;
    let ghost fs = fragment;
    let created = gl.create_program();
    let program = match created {
        Some(p) => p,
        None => {
            let r = link_outcome(false, false, None);
            gl.delete_shader(vertex);
            gl.delete_shader(fragment);
            let ghost a = LinkAnswers { created: None, linked: false, log: None };
            let res = match r {
                Ok(()) => Err(LinkError::AllocationFailed),
                Err(e) => Err(e),
            };
            assert(gl.calls() =~= old(gl).calls() + link_calls(vs, fs, a));
            assert(res == link_result(a));
            return res;
        },
    };
    gl.attach_shader(&program, &vertex);
    gl.attach_shader(&program, &fragment);
    gl.link_program(&program);
    let linked = gl.program_link_status(&program);
    if linked {
        let r = link_outcome(true, true, None);
        let ghost a = LinkAnswers { created: Some(program), linked: true, log: None };
        assert(r is Ok);
        assert(gl.calls() =~= old(gl).calls() + link_calls(vs, fs, a));
        let res = Ok(program);
        assert(res == link_result(a));
        return res;
    }
    let log = gl.program_info_log(&program);
    let ghost a = LinkAnswers { created: Some(program), linked: false, log };
    let r = link_outcome(true, false, log);
    gl.delete_program(program);
    gl.delete_shader(vertex);
    gl.delete_shader(fragment);
    let res = match r {
        Ok(()) => Err(LinkError::LinkFailed { log: None }),
        Err(e) => Err(e),
    };
    assert(gl.calls() =~= old(gl).calls() + link_calls(vs, fs, a));
    assert(res == link_result(a));
    res
}

} // verus!
