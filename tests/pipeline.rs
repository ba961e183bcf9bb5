use gl_facade::context::GlContext;
use gl_facade::error::{CompileError, LinkError};
use gl_facade::mesh::builder::MeshBuilder;
use gl_facade::mesh::stages::{compile_shader, compile_shader_pair, link_outcome, link_shaders, shader_outcome};
use gl_facade::shader::{Shader, ShaderKind};
use std::cell::RefCell;
use std::collections::{BTreeMap, BTreeSet};
use std::rc::Rc;

/// A graphics context in memory. A source compiles when its braces balance and
/// it has a `main`; a program links when the vertex shader's varyings are the
/// fragment shader's varyings. It counts the objects that are still alive.
#[derive(Default)]
struct Backend {
    next_id: u32,
    shaders: BTreeMap<u32, (ShaderKind, String, bool)>,
    programs: BTreeMap<u32, (Vec<u32>, bool)>,
    refuse_shader_kind: Option<ShaderKind>,
    refuse_program: bool,
    no_logs: bool,
    calls: Vec<String>,
}

#[derive(Clone, Default)]
struct MockGl(Rc<RefCell<Backend>>);

#[derive(Debug, PartialEq, Eq)]
struct ShaderId(u32);

#[derive(Debug, PartialEq, Eq)]
struct ProgramId(u32);

fn compiles(src: &str) -> bool {
    let open = src.matches('{').count();
    let close = src.matches('}').count();
    open == close && open > 0 && src.contains("void main()")
}

fn varyings(src: &str) -> BTreeSet<String> {
    src.lines()
        .map(|l| l.trim())
        .filter(|l| l.starts_with("varying "))
        .map(|l| l.trim_end_matches(';').split_whitespace().last().unwrap_or("").to_string())
        .collect()
}

impl MockGl {
    fn live_shaders(&self) -> usize {
        self.0.borrow().shaders.len()
    }

    fn live_programs(&self) -> usize {
        self.0.borrow().programs.len()
    }

    fn history(&self) -> Vec<String> {
        self.0.borrow().calls.clone()
    }

    fn fresh_id(&self) -> u32 {
        let mut b = self.0.borrow_mut();
        b.next_id += 1;
        b.next_id
    }
}

impl GlContext for MockGl {
    type ShaderHandle = ShaderId;
    type ProgramHandle = ProgramId;

    fn create_shader(&mut self, kind: ShaderKind) -> Option<ShaderId> {
        self.0.borrow_mut().calls.push(format!("create_shader {:?}", kind));
        if self.0.borrow().refuse_shader_kind == Some(kind) {
            return None;
        }
        let id = self.fresh_id();
        self.0.borrow_mut().shaders.insert(id, (kind, String::new(), false));
        Some(ShaderId(id))
    }

    fn shader_source(&mut self, shader: &ShaderId, src: &str) {
        let mut b = self.0.borrow_mut();
        b.calls.push(format!("shader_source {}", shader.0));
        b.shaders.get_mut(&shader.0).unwrap().1 = src.to_string();
    }

    fn compile_shader(&mut self, shader: &ShaderId) {
        let mut b = self.0.borrow_mut();
        b.calls.push(format!("compile_shader {}", shader.0));
        let entry = b.shaders.get_mut(&shader.0).unwrap();
        entry.2 = compiles(&entry.1);
    }

    fn shader_compile_status(&mut self, shader: &ShaderId) -> bool {
        self.0.borrow().shaders[&shader.0].2
    }

    fn shader_info_log(&mut self, shader: &ShaderId) -> Option<String> {
        let b = self.0.borrow();
        if b.no_logs {
            None
        } else {
            Some(format!("ERROR: 0:1: syntax error in shader {}", shader.0))
        }
    }

    fn delete_shader(&mut self, shader: ShaderId) {
        let mut b = self.0.borrow_mut();
        b.calls.push(format!("delete_shader {}", shader.0));
        assert!(b.shaders.remove(&shader.0).is_some(), "shader released twice");
    }

    fn create_program(&mut self) -> Option<ProgramId> {
        self.0.borrow_mut().calls.push("create_program".to_string());
        if self.0.borrow().refuse_program {
            return None;
        }
        let id = self.fresh_id();
        self.0.borrow_mut().programs.insert(id, (Vec::new(), false));
        Some(ProgramId(id))
    }

    fn attach_shader(&mut self, program: &ProgramId, shader: &ShaderId) {
        let mut b = self.0.borrow_mut();
        b.calls.push(format!("attach_shader {} {}", program.0, shader.0));
        assert!(b.shaders[&shader.0].2, "attached a shader that did not compile");
        b.programs.get_mut(&program.0).unwrap().0.push(shader.0);
    }

    fn link_program(&mut self, program: &ProgramId) {
        let mut b = self.0.borrow_mut();
        b.calls.push(format!("link_program {}", program.0));
        let attached = b.programs[&program.0].0.clone();
        let ok = attached.len() == 2
            && b.shaders[&attached[0]].0 == ShaderKind::Vertex
            && b.shaders[&attached[1]].0 == ShaderKind::Fragment
            && varyings(&b.shaders[&attached[0]].1) == varyings(&b.shaders[&attached[1]].1);
        b.programs.get_mut(&program.0).unwrap().1 = ok;
    }

    fn program_link_status(&mut self, program: &ProgramId) -> bool {
        self.0.borrow().programs[&program.0].1
    }

    fn program_info_log(&mut self, _program: &ProgramId) -> Option<String> {
        let b = self.0.borrow();
        if b.no_logs {
            None
        } else {
            Some("ERROR: varyings do not match".to_string())
        }
    }

    fn delete_program(&mut self, program: ProgramId) {
        let mut b = self.0.borrow_mut();
        b.calls.push(format!("delete_program {}", program.0));
        assert!(b.programs.remove(&program.0).is_some(), "program released twice");
    }
}

const VERTEX_SRC: &str = "
attribute vec4 position;
attribute vec3 color;
varying vec3 fragColor;

void main() {
    gl_Position = position;
    fragColor = color;
}
";

const FRAGMENT_SRC: &str = "
precision mediump float;
varying vec3 fragColor;

void main() {
    gl_FragColor = vec4(fragColor, 1.0);
}
";

const BROKEN_SRC: &str = "
void main() {
    gl_Position = vec4(0.0
";

const OTHER_VARYING_FRAGMENT_SRC: &str = "
precision mediump float;
varying vec4 vcolor;

void main() {
    gl_FragColor = vcolor;
}
";

fn vertex(src: &str) -> Shader<'_> {
    Shader::new(ShaderKind::Vertex, src)
}

fn fragment(src: &str) -> Shader<'_> {
    Shader::new(ShaderKind::Fragment, src)
}

#[test]
fn passthrough_pair_reaches_a_mesh() {
    let gl = MockGl::default();
    let mut ctx = gl.clone();
    let compiled = MeshBuilder::new(&mut ctx).compile_shaders(vertex(VERTEX_SRC), fragment(FRAGMENT_SRC));
    let compiled = match compiled {
        Ok(b) => b,
        Err(e) => panic!("compile failed: {:?}", e),
    };
    let linked = match compiled.link_program() {
        Ok(b) => b,
        Err(e) => panic!("link failed: {:?}", e),
    };
    let mesh = linked.finalize();
    let program = mesh.get_program().0;
    assert!(gl.0.borrow().programs[&program].1);
    assert_eq!(gl.live_programs(), 1);
    assert_eq!(gl.live_shaders(), 2);
}

#[test]
fn successful_run_follows_the_stage_order() {
    let gl = MockGl::default();
    let mut ctx = gl.clone();
    let mesh = MeshBuilder::new(&mut ctx)
        .compile_shaders(vertex(VERTEX_SRC), fragment(FRAGMENT_SRC))
        .unwrap()
        .link_program()
        .unwrap()
        .finalize();
    assert_eq!(mesh.get_program(), &ProgramId(3));
    assert_eq!(
        gl.history(),
        vec![
            "create_shader Vertex",
            "shader_source 1",
            "compile_shader 1",
            "create_shader Fragment",
            "shader_source 2",
            "compile_shader 2",
            "create_program",
            "attach_shader 3 1",
            "attach_shader 3 2",
            "link_program 3",
        ]
    );
}

#[test]
fn mesh_keeps_the_context_it_was_built_on() {
    let gl = MockGl::default();
    let mut ctx = gl.clone();
    let mesh = MeshBuilder::new(&mut ctx)
        .compile_shaders(vertex(VERTEX_SRC), fragment(FRAGMENT_SRC))
        .unwrap()
        .link_program()
        .unwrap()
        .finalize();
    assert!(Rc::ptr_eq(&mesh.get_gl_context().0, &gl.0));
}

#[test]
fn broken_vertex_source_fails_and_releases_its_shader() {
    let gl = MockGl::default();
    let mut ctx = gl.clone();
    let r = MeshBuilder::new(&mut ctx).compile_shaders(vertex(BROKEN_SRC), fragment(FRAGMENT_SRC));
    match r {
        Err(CompileError::CompileFailed { kind, log }) => {
            assert_eq!(kind, ShaderKind::Vertex);
            assert_eq!(log, Some("ERROR: 0:1: syntax error in shader 1".to_string()));
        }
        _ => panic!("expected a vertex compile failure"),
    }
    assert_eq!(gl.live_shaders(), 0);
    assert!(gl.history().contains(&"delete_shader 1".to_string()));
    assert!(!gl.history().contains(&"create_shader Fragment".to_string()));
}

#[test]
fn broken_fragment_source_fails_and_releases_both_shaders() {
    let gl = MockGl::default();
    let mut ctx = gl.clone();
    let r = MeshBuilder::new(&mut ctx).compile_shaders(vertex(VERTEX_SRC), fragment(BROKEN_SRC));
    match r {
        Err(CompileError::CompileFailed { kind, .. }) => assert_eq!(kind, ShaderKind::Fragment),
        _ => panic!("expected a fragment compile failure"),
    }
    assert_eq!(gl.live_shaders(), 0);
    assert_eq!(gl.live_programs(), 0);
}

#[test]
fn both_sources_broken_reports_the_vertex_shader() {
    let gl = MockGl::default();
    let mut ctx = gl.clone();
    let r = MeshBuilder::new(&mut ctx).compile_shaders(vertex(BROKEN_SRC), fragment(BROKEN_SRC));
    assert!(matches!(r, Err(CompileError::CompileFailed { kind: ShaderKind::Vertex, .. })));
    assert_eq!(gl.live_shaders(), 0);
}

#[test]
fn compile_failure_without_a_log_carries_none() {
    let gl = MockGl::default();
    let mut ctx = gl.clone();
    gl.0.borrow_mut().no_logs = true;
    let r = MeshBuilder::new(&mut ctx).compile_shaders(vertex(BROKEN_SRC), fragment(FRAGMENT_SRC));
    assert!(matches!(r, Err(CompileError::CompileFailed { kind: ShaderKind::Vertex, log: None })));
}

#[test]
fn refused_vertex_shader_is_an_allocation_failure() {
    let gl = MockGl::default();
    let mut ctx = gl.clone();
    gl.0.borrow_mut().refuse_shader_kind = Some(ShaderKind::Vertex);
    let r = MeshBuilder::new(&mut ctx).compile_shaders(vertex(VERTEX_SRC), fragment(FRAGMENT_SRC));
    assert!(matches!(r, Err(CompileError::AllocationFailed { kind: ShaderKind::Vertex })));
    assert_eq!(gl.live_shaders(), 0);
}

#[test]
fn refused_fragment_shader_releases_the_vertex_shader() {
    let gl = MockGl::default();
    let mut ctx = gl.clone();
    gl.0.borrow_mut().refuse_shader_kind = Some(ShaderKind::Fragment);
    let r = MeshBuilder::new(&mut ctx).compile_shaders(vertex(VERTEX_SRC), fragment(FRAGMENT_SRC));
    assert!(matches!(r, Err(CompileError::AllocationFailed { kind: ShaderKind::Fragment })));
    assert_eq!(gl.live_shaders(), 0);
}

#[test]
fn mismatched_varyings_fail_to_link_and_release_everything() {
    let gl = MockGl::default();
    let mut ctx = gl.clone();
    let compiled = MeshBuilder::new(&mut ctx)
        .compile_shaders(vertex(VERTEX_SRC), fragment(OTHER_VARYING_FRAGMENT_SRC));
    let compiled = match compiled {
        Ok(b) => b,
        Err(e) => panic!("compile failed: {:?}", e),
    };
    match compiled.link_program() {
        Err(LinkError::LinkFailed { log }) => {
            assert_eq!(log, Some("ERROR: varyings do not match".to_string()))
        }
        _ => panic!("expected a link failure"),
    }
    assert_eq!(gl.live_programs(), 0);
    assert_eq!(gl.live_shaders(), 0);
}

#[test]
fn link_failure_without_a_log_carries_none() {
    let gl = MockGl::default();
    let mut ctx = gl.clone();
    gl.0.borrow_mut().no_logs = true;
    let compiled = MeshBuilder::new(&mut ctx)
        .compile_shaders(vertex(VERTEX_SRC), fragment(OTHER_VARYING_FRAGMENT_SRC));
    let r = match compiled {
        Ok(b) => b.link_program(),
        Err(e) => panic!("compile failed: {:?}", e),
    };
    assert!(matches!(r, Err(LinkError::LinkFailed { log: None })));
}

#[test]
fn refused_program_is_an_allocation_failure() {
    let gl = MockGl::default();
    let mut ctx = gl.clone();
    gl.0.borrow_mut().refuse_program = true;
    let compiled = MeshBuilder::new(&mut ctx).compile_shaders(vertex(VERTEX_SRC), fragment(FRAGMENT_SRC));
    let r = match compiled {
        Ok(b) => b.link_program(),
        Err(e) => panic!("compile failed: {:?}", e),
    };
    assert!(matches!(r, Err(LinkError::AllocationFailed)));
    assert_eq!(gl.live_shaders(), 0);
    assert_eq!(gl.live_programs(), 0);
}

#[test]
fn two_pipelines_on_one_context_get_distinct_programs() {
    let gl = MockGl::default();
    let mut ctx = gl.clone();
    let mut ctx2 = gl.clone();
    let first = MeshBuilder::new(&mut ctx)
        .compile_shaders(vertex(VERTEX_SRC), fragment(FRAGMENT_SRC))
        .unwrap()
        .link_program()
        .unwrap()
        .finalize();
    let second = MeshBuilder::new(&mut ctx2)
        .compile_shaders(vertex(VERTEX_SRC), fragment(FRAGMENT_SRC))
        .unwrap()
        .link_program()
        .unwrap()
        .finalize();
    assert_ne!(first.get_program(), second.get_program());
    assert_eq!(gl.live_programs(), 2);
    assert_eq!(gl.live_shaders(), 4);
}

#[test]
fn a_failed_pipeline_leaves_a_second_one_unaffected() {
    let gl = MockGl::default();
    let mut ctx = gl.clone();
    let mut ctx2 = gl.clone();
    let failed = MeshBuilder::new(&mut ctx).compile_shaders(vertex(BROKEN_SRC), fragment(FRAGMENT_SRC));
    assert!(failed.is_err());
    let mesh = MeshBuilder::new(&mut ctx2)
        .compile_shaders(vertex(VERTEX_SRC), fragment(FRAGMENT_SRC))
        .unwrap()
        .link_program()
        .unwrap()
        .finalize();
    assert!(gl.0.borrow().programs[&mesh.get_program().0].1);
    assert_eq!(gl.live_shaders(), 2);
}

#[test]
fn shader_outcome_covers_each_answer() {
    assert_eq!(
        shader_outcome(ShaderKind::Fragment, false, false, None),
        Err(CompileError::AllocationFailed { kind: ShaderKind::Fragment })
    );
    assert_eq!(shader_outcome(ShaderKind::Vertex, true, true, None), Ok(()));
    assert_eq!(
        shader_outcome(ShaderKind::Vertex, true, false, Some("bad".to_string())),
        Err(CompileError::CompileFailed { kind: ShaderKind::Vertex, log: Some("bad".to_string()) })
    );
}

#[test]
fn link_outcome_covers_each_answer() {
    assert_eq!(link_outcome(false, true, None), Err(LinkError::AllocationFailed));
    assert_eq!(link_outcome(true, true, None), Ok(()));
    assert_eq!(
        link_outcome(true, false, Some("mismatch".to_string())),
        Err(LinkError::LinkFailed { log: Some("mismatch".to_string()) })
    );
}

#[test]
fn single_shader_failure_queries_the_log_then_releases() {
    let mut gl = MockGl::default();
    let r = compile_shader(&mut gl, &fragment(BROKEN_SRC));
    assert!(matches!(r, Err(CompileError::CompileFailed { kind: ShaderKind::Fragment, log: Some(_) })));
    assert_eq!(gl.history(), vec!["create_shader Fragment", "shader_source 1", "compile_shader 1", "delete_shader 1"]);
    assert_eq!(gl.live_shaders(), 0);
}

#[test]
fn pair_then_link_through_the_stage_functions() {
    let mut gl = MockGl::default();
    let (v, f) = compile_shader_pair(&mut gl, &vertex(VERTEX_SRC), &fragment(FRAGMENT_SRC)).unwrap();
    assert_eq!((&v, &f), (&ShaderId(1), &ShaderId(2)));
    let p = link_shaders(&mut gl, v, f).unwrap();
    assert_eq!(p, ProgramId(3));
    assert_eq!(gl.live_programs(), 1);
}

#[test]
fn link_failure_through_the_stage_function_releases_all() {
    let mut gl = MockGl::default();
    let (v, f) = compile_shader_pair(&mut gl, &vertex(VERTEX_SRC), &fragment(OTHER_VARYING_FRAGMENT_SRC)).unwrap();
    let r = link_shaders(&mut gl, v, f);
    assert!(matches!(r, Err(LinkError::LinkFailed { .. })));
    let calls = gl.history();
    assert_eq!(
        calls[calls.len() - 3..].to_vec(),
        vec!["delete_program 3", "delete_shader 1", "delete_shader 2"]
    );
    assert_eq!(gl.live_shaders(), 0);
    assert_eq!(gl.live_programs(), 0);
}
