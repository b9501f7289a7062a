//! Shader and program records.  Compiling and linking happen on the
//! device; the library tracks the identity that errors and uniform
//! lookups are reported with.

use vstd::prelude::*;

verus! {

/// A shader or program failure, carrying enough identity to diagnose it
/// without source access.
#[derive(Clone, Debug, PartialEq, Eq)]
pub enum Error {
    ResourceLoad { name: String },
    CanNotDetermineShaderTypeForResource { name: String },
    CompileError { name: String, message: String },
    LinkError { name: String, message: String },
    UniformLocationNotFound { uniform_name: String, program_id: u32, program_name: String },
    AttribLocationNotFound { attrib_name: String, program_id: u32, program_name: String },
}

/// A compiled shader stage.
pub struct Shader {
    pub id: u32,
}

impl Shader {
    pub fn from_raw(id: u32) -> (r: Shader)
        ensures
            r.id == id,
    {
        Shader { id }
    }

    pub fn id(&self) -> (r: u32)
        ensures
            r == self.id,
    {
        self.id
    }
}

/// A linked program: a device identifier plus the logical name that
/// every error about the program is reported under.
pub struct Program {
    pub id: u32,
    pub name: String,
}

impl Program {
    pub fn from_parts(id: u32, name: String) -> (r: Program)
        ensures
            r.id == id,
            r.name@ == name@,
    {
        Program { id, name }
    }

    /// The built-in composition program: a pass-through sampler.
    pub fn pass_through() -> (r: Program)
        ensures
            r.id == 0,
            r.name@ == "internal/shaders/render_target"@,
    {
        Program { id: 0, name: "internal/shaders/render_target".to_owned() }
    }

    pub fn id(&self) -> (r: u32)
        ensures
            r == self.id,
    {
        self.id
    }
}

impl Clone for Program {
    fn clone(&self) -> (r: Program)
        ensures
            r.id == self.id,
            r.name@ == self.name@,
    {
        Program { id: self.id, name: self.name.clone() }
    }
}

} // verus!
