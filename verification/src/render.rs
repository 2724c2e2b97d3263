//! CPU-side descriptions of render resources.
//!
//! Rendering itself — device setup, pipelines, GPU buffers — happens
//! outside the library; these types carry what the renderer needs in order
//! to set it up.

use vstd::prelude::*;

verus! {

/// A named WGSL shader source, held until the renderer compiles it.
pub struct Shader {
    pub name: &'static str,
    pub source: &'static str,
}

impl Shader {
    pub fn new(name: &'static str, source: &'static str) -> (r: Shader)
        ensures
            r.name@ == name@,
            r.source@ == source@,
    {
        Shader { name, source }
    }

    pub fn name(&self) -> (r: &'static str)
        ensures
            r@ == self.name@,
    {
        self.name
    }

    pub fn source(&self) -> (r: &'static str)
        ensures
            r@ == self.source@,
    {
        self.source
    }
}

/// Which render pipeline a draw call uses.
#[derive(Clone, Copy, PartialEq, Eq, Structural, Debug)]
pub enum Pipeline {
    Wireframe,
    Solid,
    World,
}

} // verus!
