use vstd::prelude::*;

verus! {

/// WebGL's enum value for a vertex shader object (`VERTEX_SHADER`).
pub const VERTEX_SHADER: u32 = 0x8B31;

/// WebGL's enum value for a fragment shader object (`FRAGMENT_SHADER`).
pub const FRAGMENT_SHADER: u32 = 0x8B30;

/// The stage of the graphics pipeline a shader runs in.
#[derive(Clone, Copy, Debug, PartialEq, Eq, Structural)]
pub enum ShaderKind {
    Vertex,
    Fragment,
}

impl ShaderKind {
    /// The backend enum value that selects this kind of shader object.
    pub open spec fn spec_as_u32(self) -> u32 {
        match self {
            ShaderKind::Vertex => VERTEX_SHADER,
            ShaderKind::Fragment => FRAGMENT_SHADER,
        }
    }

    /// The name of this kind in diagnostics.
    pub open spec fn spec_name(self) -> Seq<char> {
        match self {
            ShaderKind::Vertex => "vertex shader"@,
            ShaderKind::Fragment => "fragment shader"@,
        }
    }

    pub fn as_u32(&self) -> (r: u32)
        ensures
            r == self.spec_as_u32(),
    {
        match self {
            ShaderKind::Vertex => VERTEX_SHADER,
            ShaderKind::Fragment => FRAGMENT_SHADER,
        }
    }

    pub fn name(&self) -> (r: String)
        ensures
            r@ == self.spec_name(),
    {
        match self {
            ShaderKind::Vertex => "vertex shader".to_owned(),
            ShaderKind::Fragment => "fragment shader".to_owned(),
        }
    }
}

/// A shader's kind together with its source text, borrowed from the caller.
pub struct Shader<'a> {
    kind: ShaderKind,
    src: &'a str,
}

impl<'a> Shader<'a> {
    pub closed spec fn spec_kind(&self) -> ShaderKind {
        self.kind
    }

    pub closed spec fn spec_src(&self) -> Seq<char> {
        self.src@
    }

    pub fn new(kind: ShaderKind, src: &'a str) -> (r: Self)
        ensures
            r.spec_kind() == kind,
            r.spec_src() == src@,
    {
        Shader { kind, src }
    }

    pub fn kind(&self) -> (r: ShaderKind)
        ensures
            r == self.spec_kind(),
    {
        self.kind
    }

    pub fn use_src(&self) -> (r: &'a str)
        ensures
            r@ == self.spec_src(),
    {
        self.src
    }

    pub fn as_u32(&self) -> (r: u32)
        ensures
            r == self.spec_kind().spec_as_u32(),
    {
        self.kind.as_u32()
    }

    pub fn kind_as_string(&self) -> (r: String)
        ensures
            r@ == self.spec_kind().spec_name(),
    {
        self.kind.name()
    }
}

} // verus!
