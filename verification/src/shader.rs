//! The shader texts a program is built from, and the names under which a
//! fragment shader finds its inputs.

use vstd::prelude::*;

verus! {

/// The vertex stage paired with every fragment shader: it passes the corners
/// of the quad through unchanged, so that the fragment stage runs once for
/// every pixel of the surface.
pub const VERTEX_SHADER: &'static str =
    "attribute vec2 position;\nvoid main() {\n    gl_Position = vec4(position, 0.0, 1.0);\n}\n";

/// Name of the vertex attribute that carries a corner of the quad.
pub const POSITION_ATTRIBUTE: &'static str = "position";

/// Name of the three-component uniform `(width, height, height / width)` of
/// the framebuffer, in pixels.
pub const RESOLUTION_UNIFORM: &'static str = "u_resolution";

/// Name of the uniform that holds the seconds elapsed since the process
/// started.
pub const TIME_UNIFORM: &'static str = "u_time";

/// Name of the integer uniform that numbers the frames drawn, the first one
/// being frame 0.
pub const FRAME_UNIFORM: &'static str = "u_frame";

/// The two texts handed to the shader compiler. The fragment text is whatever
/// was last read from the watched file; it is never kept beyond the compile
/// that consumes it.
#[derive(Debug)]
pub struct ShaderSource {
    pub vertex: &'static str,
    pub fragment: String,
}

impl ShaderSource {
    /// Pairs a fragment shader with the fixed vertex stage.
    pub fn new(fragment: String) -> (source: ShaderSource)
        ensures
            source.vertex@ == VERTEX_SHADER@,
            source.fragment == fragment,
    {
        ShaderSource { vertex: VERTEX_SHADER, fragment }
    }
}

/// Why a shader could not be turned into a program.
#[derive(PartialEq, Eq, Debug)]
pub enum LoadError {
    /// The file could not be read; the text says why.
    Read(String),
    /// The compiler or linker rejected the source; the text is its
    /// diagnostic.
    Compile(String),
}

impl LoadError {
    /// The text to show the user.
    pub fn diagnostic(&self) -> (text: &String)
        ensures
            *text == self.text(),
    {
        match self {
            LoadError::Read(reason) => reason,
            LoadError::Compile(diagnostic) => diagnostic,
        }
    }

    /// The text this error carries.
    pub open spec fn text(&self) -> String {
        match *self {
            LoadError::Read(reason) => reason,
            LoadError::Compile(diagnostic) => diagnostic,
        }
    }
}

} // verus!
