use vstd::prelude::*;

verus! {

/// One operation on the live graphics context, in the order the caller must
/// execute it. Handles are the object names the backend handed out.
#[derive(Clone, Copy, Debug, PartialEq, Eq, Structural)]
pub enum GlCommand {
    /// Set the viewport to `(0, 0, width, height)`.
    Viewport { width: i32, height: i32 },
    /// Clear the colour buffer with the configured clear colour.
    ClearColorBuffer,
    /// Make a program the active one (0 unbinds).
    UseProgram(u32),
    /// Bind a vertex-array object (0 unbinds).
    BindVertexArray(u32),
    /// Bind a buffer object to the array-buffer target.
    BindArrayBuffer(u32),
    /// Copy the caller's vertex data, `byte_len` bytes, into the bound
    /// array buffer with static usage.
    StaticBufferData { byte_len: usize },
    /// Describe one float attribute of the bound buffer, unnormalised.
    FloatAttribPointer { location: u32, components: i32, stride_bytes: i32, offset_bytes: usize },
    /// Enable the attribute array at a location.
    EnableAttribArray(u32),
    /// Draw `count` vertices as triangles, starting at `first`.
    DrawTriangles { first: i32, count: i32 },
    /// Present the finished frame (swap the window's buffers).
    Present,
    /// Attach a shader object to a program object.
    AttachShader { program: u32, shader: u32 },
    /// Link a program object.
    LinkProgram(u32),
    /// Detach a shader object from a program object.
    DetachShader { program: u32, shader: u32 },
    /// Release a shader object.
    DeleteShader(u32),
    /// Release a vertex-array object.
    DeleteVertexArray(u32),
    /// Release a buffer object.
    DeleteBuffer(u32),
    /// Release a program object.
    DeleteProgram(u32),
}

} // verus!
