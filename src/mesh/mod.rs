use vstd::prelude::*;
use crate::context::GlContext;

pub mod builder;
pub mod laws;
pub mod stages;
pub mod state;

verus! {

/// A graphics context together with a program linked in it, ready for drawing.
pub struct Mesh<'a, G: GlContext> {
    gl: &'a mut G,
    program: G::ProgramHandle,
}

impl<'a, G: GlContext> Mesh<'a, G> {
    /// The borrowed graphics context.
    pub closed spec fn spec_context(&self) -> &'a mut G {
        self.gl
    }

    pub closed spec fn spec_program(&self) -> G::ProgramHandle {
        self.program
    }

    pub(crate) fn from_parts(gl: &'a mut G, program: G::ProgramHandle) -> (r: Self)
        ensures
            *r.spec_context() == *old(gl),
            *final(r.spec_context()) == *final(gl),
            r.spec_program() == program,
    {
        Mesh { gl, program }
    }

    pub fn get_gl_context(&self) -> (r: &G)
        ensures
            *r == *self.spec_context(),
    {
        &*self.gl
    }

    pub fn get_program(&self) -> (r: &G::ProgramHandle)
        ensures
            *r == self.spec_program(),
    {
        &self.program
    }

    /// Gives up the borrow of the context and keeps the program.
    pub fn into_program(self) -> (r: G::ProgramHandle)
        ensures
            r == self.spec_program(),
    {
        self.program
    }
}

} // verus!
