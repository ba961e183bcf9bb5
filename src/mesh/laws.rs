use vstd::prelude::*;
use crate::context::GlCall;
use crate::error::{CompileError, LinkError};
use crate::mesh::stages::{
    link_calls, link_result, pair_calls, pair_result, shader_calls, shader_result, LinkAnswers,
    ShaderAnswers,
};
use crate::shader::ShaderKind;

verus! {

/// A shader whose compilation fails is released as the last call of its run,
/// and a refused shader is reported as an allocation failure of its kind.
pub proof fn lemma_failed_shader_is_released<S, P>(kind: ShaderKind, src: Seq<char>, a: ShaderAnswers<S>)
    requires
        (shader_result(kind, a) is Err),
    ensures
        (a.created matches Some(h) ==> shader_calls::<S, P>(kind, src, a).last()
            == (GlCall::<S, P>::DeleteShader { shader: h })),
        (a.created is None ==> shader_result(kind, a)
            == Err::<S, CompileError>(CompileError::AllocationFailed { kind })),
{
}

/// When the vertex shader fails, its error is the result and the fragment
/// shader is never touched: the calls are the vertex shader's alone, whatever
/// the context would have answered for the fragment shader.
pub proof fn lemma_vertex_failure_short_circuits<S, P>(
    vertex: ShaderKind,
    vertex_src: Seq<char>,
    fragment: ShaderKind,
    fragment_src: Seq<char>,
    va: ShaderAnswers<S>,
    fa: ShaderAnswers<S>,
)
    requires
        (shader_result(vertex, va) is Err),
    ensures
        (pair_calls::<S, P>(vertex, vertex_src, fragment, fragment_src, va, fa)
            == shader_calls::<S, P>(vertex, vertex_src, va)),
        (pair_result(vertex, fragment, va, fa)
            == Err::<(S, S), CompileError>(shader_result(vertex, va)->Err_0)),
{
}

/// When the fragment shader fails after the vertex shader compiled, both
/// shader objects are released and the error is the fragment shader's.
pub proof fn lemma_fragment_failure_releases_both<S, P>(
    vertex: ShaderKind,
    vertex_src: Seq<char>,
    fragment: ShaderKind,
    fragment_src: Seq<char>,
    va: ShaderAnswers<S>,
    fa: ShaderAnswers<S>,
)
    requires
        (shader_result(vertex, va) is Ok),
        (shader_result(fragment, fa) is Err),
    ensures
        (pair_calls::<S, P>(vertex, vertex_src, fragment, fragment_src, va, fa)
            .contains(GlCall::DeleteShader { shader: va.created->Some_0 })),
        (fa.created matches Some(fh) ==> pair_calls::<S, P>(
            vertex, vertex_src, fragment, fragment_src, va, fa)
            .contains(GlCall::DeleteShader { shader: fh })),
        (pair_result(vertex, fragment, va, fa)
            == Err::<(S, S), CompileError>(shader_result(fragment, fa)->Err_0)),
{
    let vrun = shader_calls::<S, P>(vertex, vertex_src, va);
    let frun = shader_calls::<S, P>(fragment, fragment_src, fa);
    let s = pair_calls::<S, P>(vertex, vertex_src, fragment, fragment_src, va, fa);
    assert(s == (vrun + frun).push(GlCall::DeleteShader { shader: va.created->Some_0 }));
    assert(s[s.len() - 1] == (GlCall::<S, P>::DeleteShader { shader: va.created->Some_0 }));
    if let Some(fh) = fa.created {
        let k = vrun.len() + frun.len() - 1;
        assert(frun[frun.len() - 1] == (GlCall::<S, P>::DeleteShader { shader: fh }));
        assert(s[k] == (GlCall::<S, P>::DeleteShader { shader: fh }));
    }
}

/// A failed link releases both shaders and, where one was created, the
/// program.
pub proof fn lemma_failed_link_releases_all<S, P>(vertex: S, fragment: S, a: LinkAnswers<P>)
    requires
        (link_result(a) is Err),
    ensures
        (link_calls(vertex, fragment, a).contains(GlCall::DeleteShader { shader: vertex })),
        (link_calls(vertex, fragment, a).contains(GlCall::DeleteShader { shader: fragment })),
        (a.created matches Some(p) ==> link_calls(vertex, fragment, a)
            .contains(GlCall::DeleteProgram { program: p })),
{
    let s = link_calls(vertex, fragment, a);
    assert(s[s.len() - 2] == (GlCall::<S, P>::DeleteShader { shader: vertex }));
    assert(s[s.len() - 1] == (GlCall::<S, P>::DeleteShader { shader: fragment }));
    if let Some(p) = a.created {
        assert(s[s.len() - 3] == (GlCall::<S, P>::DeleteProgram { program: p }));
    }
}

/// A program that comes out of the link stage was reported linked by the
/// context after both shaders were attached to it, vertex first, and it is
/// not released.
pub proof fn lemma_linked_program_was_checked<S, P>(vertex: S, fragment: S, a: LinkAnswers<P>, p: P)
    requires
        (link_result(a) == Ok::<P, LinkError>(p)),
    ensures
        (link_calls(vertex, fragment, a) == seq![
            GlCall::CreateProgram { result: Some(p) },
            GlCall::AttachShader { program: p, shader: vertex },
            GlCall::AttachShader { program: p, shader: fragment },
            GlCall::LinkProgram { program: p },
            GlCall::ProgramLinkStatus { program: p, result: true },
        ]),
        (!link_calls(vertex, fragment, a).contains(GlCall::DeleteProgram { program: p })),
{
    let s = link_calls(vertex, fragment, a);
    assert forall|i: int| 0 <= i < s.len() implies s[i] != (GlCall::<S, P>::DeleteProgram {
        program: p,
    }) by {}
}

/// Shaders that come out of the compile stage were both created and reported
/// compiled by the context, vertex first, and neither was released: no
/// failed shader reaches the link stage.
pub proof fn lemma_compiled_pair_was_checked<S, P>(
    vertex: ShaderKind,
    vertex_src: Seq<char>,
    fragment: ShaderKind,
    fragment_src: Seq<char>,
    va: ShaderAnswers<S>,
    fa: ShaderAnswers<S>,
    vh: S,
    fh: S,
)
    requires
        (pair_result(vertex, fragment, va, fa) == Ok::<(S, S), CompileError>((vh, fh))),
    ensures
        (pair_calls::<S, P>(vertex, vertex_src, fragment, fragment_src, va, fa) == seq![
            GlCall::<S, P>::CreateShader { kind: vertex, result: Some(vh) },
            GlCall::ShaderSource { shader: vh, src: vertex_src },
            GlCall::CompileShader { shader: vh },
            GlCall::ShaderCompileStatus { shader: vh, result: true },
            GlCall::CreateShader { kind: fragment, result: Some(fh) },
            GlCall::ShaderSource { shader: fh, src: fragment_src },
            GlCall::CompileShader { shader: fh },
            GlCall::ShaderCompileStatus { shader: fh, result: true },
        ]),
{
    let s = pair_calls::<S, P>(vertex, vertex_src, fragment, fragment_src, va, fa);
    assert(s =~= seq![
        GlCall::<S, P>::CreateShader { kind: vertex, result: Some(vh) },
        GlCall::ShaderSource { shader: vh, src: vertex_src },
        GlCall::CompileShader { shader: vh },
        GlCall::ShaderCompileStatus { shader: vh, result: true },
        GlCall::CreateShader { kind: fragment, result: Some(fh) },
        GlCall::ShaderSource { shader: fh, src: fragment_src },
        GlCall::CompileShader { shader: fh },
        GlCall::ShaderCompileStatus { shader: fh, result: true },
    ]);
}

/// The objects that an answer names: the created one, if any.
pub open spec fn created_set<T>(created: Option<T>) -> Set<T> {
    match created {
        Some(h) => set![h],
        None => Set::empty(),
    }
}

/// Whether a call names only shaders in `shaders` and programs in `programs`.
pub open spec fn call_within<S, P>(c: GlCall<S, P>, shaders: Set<S>, programs: Set<P>) -> bool {
    match c {
        GlCall::CreateShader { result, .. } => created_set(result).subset_of(shaders),
        GlCall::ShaderSource { shader, .. } => shaders.contains(shader),
        GlCall::CompileShader { shader } => shaders.contains(shader),
        GlCall::ShaderCompileStatus { shader, .. } => shaders.contains(shader),
        GlCall::ShaderInfoLog { shader, .. } => shaders.contains(shader),
        GlCall::DeleteShader { shader } => shaders.contains(shader),
        GlCall::CreateProgram { result } => created_set(result).subset_of(programs),
        GlCall::AttachShader { program, shader } => programs.contains(program) && shaders.contains(
            shader,
        ),
        GlCall::LinkProgram { program } => programs.contains(program),
        GlCall::ProgramLinkStatus { program, .. } => programs.contains(program),
        GlCall::ProgramInfoLog { program, .. } => programs.contains(program),
        GlCall::DeleteProgram { program } => programs.contains(program),
    }
}

/// The compile stage touches only the shader objects it created itself, so
/// pipelines sharing one context do not reach each other's objects.
pub proof fn lemma_compile_touches_own_objects<S, P>(
    vertex: ShaderKind,
    vertex_src: Seq<char>,
    fragment: ShaderKind,
    fragment_src: Seq<char>,
    va: ShaderAnswers<S>,
    fa: ShaderAnswers<S>,
)
    ensures
        (forall|i: int|
            0 <= i < pair_calls::<S, P>(vertex, vertex_src, fragment, fragment_src, va, fa).len()
                ==> call_within(
                #[trigger] pair_calls::<S, P>(vertex, vertex_src, fragment, fragment_src, va, fa)[i],
                created_set(va.created) + created_set(fa.created),
                Set::<P>::empty(),
            )),
{
    let own = created_set(va.created) + created_set(fa.created);
    let vrun = shader_calls::<S, P>(vertex, vertex_src, va);
    let frun = shader_calls::<S, P>(fragment, fragment_src, fa);
    assert forall|i: int| 0 <= i < vrun.len() implies call_within(vrun[i], own, Set::<P>::empty()) by {}
    assert forall|i: int| 0 <= i < frun.len() implies call_within(frun[i], own, Set::<P>::empty()) by {}
    let s = pair_calls::<S, P>(vertex, vertex_src, fragment, fragment_src, va, fa);
    assert forall|i: int| 0 <= i < s.len() implies call_within(s[i], own, Set::<P>::empty()) by {
        if i >= vrun.len() && i < vrun.len() + frun.len() {
            assert(s[i] == frun[i - vrun.len()]);
        }
    }
}

/// The link stage touches only the two shaders it was given and the program
/// it created itself.
pub proof fn lemma_link_touches_own_objects<S, P>(vertex: S, fragment: S, a: LinkAnswers<P>)
    ensures
        (forall|i: int|
            0 <= i < link_calls(vertex, fragment, a).len() ==> call_within(
                #[trigger] link_calls(vertex, fragment, a)[i],
                set![vertex, fragment],
                created_set(a.created),
            )),
{
    let s = link_calls(vertex, fragment, a);
    assert forall|i: int| 0 <= i < s.len() implies call_within(
        s[i],
        set![vertex, fragment],
        created_set(a.created),
    ) by {}
}

} // verus!
