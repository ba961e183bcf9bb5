use vstd::prelude::*;

verus! {

/// The stage a mesh builder has reached; each stage is its own type.
pub trait MeshState {}

/// No shader has been compiled yet.
pub struct Initialized;

/// Both shaders compiled; their objects are owned by this stage.
pub struct ShadersCompiled<H> {
    pub vertex_shader: H,
    pub fragment_shader: H,
}

/// The program is linked; the shaders now belong to it.
pub struct ProgramLinked<P> {
    pub program: P,
}

impl MeshState for Initialized {}

impl<H> MeshState for ShadersCompiled<H> {}

impl<P> MeshState for ProgramLinked<P> {}

} // verus!
