//! A type-state pipeline that turns a pair of shader sources into a linked
//! graphics program, over an injected graphics context.

pub mod context;
pub mod error;
pub mod mesh;
pub mod shader;
pub mod webgl;
