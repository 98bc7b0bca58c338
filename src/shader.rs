//! A compiled and linked shader program, with the sources it was built from.

use vstd::prelude::*;

verus! {

/// A shader program and the two stages it was linked from.
#[derive(Debug)]
pub struct Shader {
    pub vertex_shader: String,
    pub fragment_shader: String,
    pub vs: u32,
    pub fs: u32,
    pub program: u32,
}

impl Shader {
    /// Records a program linked from the compiled stages `vs` and `fs`, whose
    /// sources are `vertex_shader` and `fragment_shader`.
    pub fn new(vertex_shader: String, fragment_shader: String, vs: u32, fs: u32, program: u32) -> (r:
        Shader)
        ensures
            r.vertex_shader@ == vertex_shader@,
            r.fragment_shader@ == fragment_shader@,
            r.vs == vs,
            r.fs == fs,
            r.program == program,
    {
        Shader { vertex_shader, fragment_shader, vs, fs, program }
    }
}

} // verus!
