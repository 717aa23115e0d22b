//! The vocabulary between the library and whoever drives the graphics API.
//!
//! A `Command` names one call that is to be made; a `Reply` carries back what
//! the call returned. The library only ever produces commands and consumes
//! replies.

use vstd::prelude::*;
use crate::projection::ProjectionMatrix;

verus! {

/// Name of a shader object.
#[derive(Clone, Copy, Debug, PartialEq, Eq, Structural)]
pub struct Shader(pub u32);

/// Name of a program object.
#[derive(Clone, Copy, Debug, PartialEq, Eq, Structural)]
pub struct Program(pub u32);

/// Name of a texture object.
#[derive(Clone, Copy, Debug, PartialEq, Eq, Structural)]
pub struct Texture(pub u32);

/// Name of a buffer object.
#[derive(Clone, Copy, Debug, PartialEq, Eq, Structural)]
pub struct Buffer(pub u32);

/// Name of a vertex array object.
#[derive(Clone, Copy, Debug, PartialEq, Eq, Structural)]
pub struct VertexArray(pub u32);

/// The pipeline stage a shader is written for.
#[derive(Clone, Copy, Debug, PartialEq, Eq, Structural)]
pub enum ShaderStage {
    Vertex,
    Fragment,
}

/// The binding point of a buffer.
#[derive(Clone, Copy, Debug, PartialEq, Eq, Structural)]
pub enum BufferTarget {
    /// Vertex attributes.
    Array,
    /// Vertex indices.
    ElementArray,
}

/// Which of a texture's two sampling filters is meant.
#[derive(Clone, Copy, Debug, PartialEq, Eq, Structural)]
pub enum TextureFilter {
    Minification,
    Magnification,
}

/// Where one attribute sits inside a vertex of 32-bit floats.
#[derive(Clone, Copy, Debug, PartialEq, Eq, Structural)]
pub struct Attribute {
    /// Attribute location in the vertex shader.
    pub index: u32,
    /// Number of floats the attribute is made of.
    pub components: i32,
    /// Distance in bytes from one vertex to the next.
    pub stride: i32,
    /// Offset in bytes of the attribute inside its vertex.
    pub offset: u32,
}

/// One call to be made on the graphics API or the window.
#[derive(Clone, Copy, Debug, PartialEq, Eq, Structural)]
pub enum Command {
    /// Delete a program object.
    DeleteProgram(Program),
    /// Create a shader object of the given stage. Replied to with
    /// `Reply::Shader`.
    CreateShader(ShaderStage),
    /// Give a shader object the source text embedded for the stage.
    ShaderSource(Shader, ShaderStage),
    /// Compile a shader object.
    CompileShader(Shader),
    /// Create a program object. Replied to with `Reply::Program`.
    CreateProgram,
    /// Attach a shader object to a program object.
    AttachShader(Program, Shader),
    /// Link a program object.
    LinkProgram(Program),
    /// Ask for a program's link status. Replied to with `Reply::Status`.
    GetLinkStatus(Program),
    /// Ask for a program's info log, cut to the given number of bytes.
    /// Replied to with `Reply::Log`.
    GetProgramInfoLog(Program, u32),
    /// Detach a shader object from a program object.
    DetachShader(Program, Shader),
    /// Delete a shader object.
    DeleteShader(Shader),
    /// Make a program the one that draws and that uniforms are written to.
    UseProgram(Program),
    /// Bind a vertex array object.
    BindVertexArray(VertexArray),
    /// Bind a buffer object to a target.
    BindBuffer(BufferTarget, Buffer),
    /// Upload, for static drawing, the data meant for the target: the vertices
    /// for `Array`, the indices for `ElementArray`.
    BufferData(BufferTarget),
    /// Describe one attribute of non-normalized floats in the bound vertex
    /// buffer.
    VertexAttribPointer(Attribute),
    /// Switch on the attribute at a location.
    EnableVertexAttribArray(u32),
    /// Select a texture unit.
    ActiveTexture(u32),
    /// Bind a texture object to the two-dimensional target.
    BindTexture(Texture),
    /// Leave the two-dimensional target without a texture.
    UnbindTexture,
    /// Upload the decoded image to the bound texture as RGBA, 8 bits a
    /// channel, without conversion.
    TexImage2D { level: i32, width: i32, height: i32, border: i32 },
    /// Set one sampling filter of the bound texture to linear.
    TexFilterLinear(TextureFilter),
    /// Set the viewport rectangle.
    Viewport { x: i32, y: i32, width: i32, height: i32 },
    /// Write the projection, given row by row, to the uniform of the program
    /// that holds it: the one named by `renderer::PROJECTION_UNIFORM`.
    UniformProjection { program: Program, matrix: ProjectionMatrix },
    /// Set the clear color, each channel from 0 (none) to 255 (full).
    ClearColor { red: u8, green: u8, blue: u8, alpha: u8 },
    /// Clear the color buffer.
    ClearColorBuffer,
    /// Draw a triangle list from `count` 16-bit indices of the bound element
    /// buffer.
    DrawElements { count: i32 },
    /// Draw a triangle list from the first `count` vertices.
    DrawArrays { count: i32 },
    /// Set the number of display refreshes to wait for between two frames.
    SwapInterval(u32),
    /// Mark the window as due to close.
    SetShouldClose,
    /// Present the frame.
    SwapBuffers,
}

/// What came back from the last command that was carried out.
#[derive(Debug, PartialEq, Eq)]
pub enum Reply {
    /// The command returns nothing.
    Done,
    /// The shader object that was created.
    Shader(Shader),
    /// The program object that was created.
    Program(Program),
    /// The link status: zero for failure, anything else for success.
    Status(i32),
    /// The bytes of an info log, as the driver left them in the buffer.
    Log(Vec<u8>),
}

} // verus!
