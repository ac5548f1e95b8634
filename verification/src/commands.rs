//! The vocabulary of GPU commands that the library emits.
//!
//! The verified core never touches a graphics context. Instead it produces
//! sequences of `GlCommand` values, plain data that an unverified shell
//! executes one by one against the real API. Contracts elsewhere in the
//! crate pin down exactly which command sequences are produced, and the
//! spec functions here interpret a sequence just far enough to state the
//! bind/unbind discipline: after setup or a draw, no vertex array and no
//! array buffer is left bound.

use vstd::prelude::*;

verus! {

/// Element type of one vertex attribute, with its size in bytes fixed by
/// the graphics API.
#[derive(Clone, Copy, Debug, PartialEq, Eq, Structural)]
pub enum GlElementType {
    Byte,
    UnsignedByte,
    Short,
    UnsignedShort,
    Int,
    UnsignedInt,
    Float,
}

/// Size in bytes of one element of the given type.
pub open spec fn spec_element_size_bytes(t: GlElementType) -> int {
    match t {
        GlElementType::Byte => 1,
        GlElementType::UnsignedByte => 1,
        GlElementType::Short => 2,
        GlElementType::UnsignedShort => 2,
        GlElementType::Int => 4,
        GlElementType::UnsignedInt => 4,
        GlElementType::Float => 4,
    }
}

impl GlElementType {
    /// Size in bytes of one element of this type.
    pub fn size_bytes(&self) -> (s: u32)
        ensures
            s == spec_element_size_bytes(*self),
            1 <= s <= 4,
    {
        match self {
            GlElementType::Byte => 1,
            GlElementType::UnsignedByte => 1,
            GlElementType::Short => 2,
            GlElementType::UnsignedShort => 2,
            GlElementType::Int => 4,
            GlElementType::UnsignedInt => 4,
            GlElementType::Float => 4,
        }
    }
}

/// How often the buffer contents are expected to change; affects the
/// driver's allocation strategy, never correctness.
#[derive(Clone, Copy, Debug, PartialEq, Eq, Structural)]
pub enum UsageHint {
    StaticDraw,
    DynamicDraw,
}

/// A fixed-function capability toggled per frame.
#[derive(Clone, Copy, Debug, PartialEq, Eq, Structural)]
pub enum Capability {
    DepthTest,
    Blend,
    CullFace,
}

/// Polygon rasterization mode.
#[derive(Clone, Copy, Debug, PartialEq, Eq, Structural)]
pub enum FillMode {
    Line,
    Fill,
}

/// One GPU command, as plain data. The unverified shell translates each
/// variant into exactly one call of the graphics API.
#[derive(Clone, Copy, Debug, PartialEq, Eq, Structural)]
pub enum GlCommand {
    /// Bind the vertex array object with this name (0 unbinds).
    BindVertexArray(u32),
    /// Bind the array buffer with this name (0 unbinds).
    BindArrayBuffer(u32),
    /// Upload `size_bytes` bytes of host data into the bound array buffer.
    BufferData { size_bytes: usize, usage: UsageHint },
    /// Enable the vertex attribute slot `index`.
    EnableVertexAttribArray(u32),
    /// Describe the layout of attribute slot `index` within the bound buffer.
    VertexAttribPointer {
        index: u32,
        component_count: i32,
        element_type: GlElementType,
        normalized: bool,
        stride_bytes: i32,
        offset_bytes: usize,
    },
    /// Issue a triangle-list draw of `count` vertices starting at `first`.
    DrawTriangles { first: i32, count: i32 },
    /// Enable a fixed-function capability.
    Enable(Capability),
    /// Disable a fixed-function capability.
    Disable(Capability),
    /// Select standard alpha blending (source alpha, one minus source alpha).
    BlendFuncStandardAlpha,
    /// Select the polygon rasterization mode for front and back faces.
    PolygonMode(FillMode),
    /// Set the viewport rectangle.
    Viewport { x: i32, y: i32, width: i32, height: i32 },
    /// Set the clear color; each channel is an 8-bit value mapped to [0, 1].
    ClearColor { red: u8, green: u8, blue: u8, alpha: u8 },
    /// Clear the color buffer and, when `depth` is set, the depth buffer.
    Clear { color: bool, depth: bool },
}

/// The vertex array object left bound after executing `cmds` in order,
/// starting from the binding `initial` (0 means none).
pub open spec fn vertex_array_binding_after(cmds: Seq<GlCommand>, initial: u32) -> u32
    decreases cmds.len(),
{
    if cmds.len() == 0 {
        initial
    } else {
        match cmds.last() {
            GlCommand::BindVertexArray(v) => v,
            _ => vertex_array_binding_after(cmds.drop_last(), initial),
        }
    }
}

/// The array buffer left bound after executing `cmds` in order, starting
/// from the binding `initial` (0 means none).
pub open spec fn array_buffer_binding_after(cmds: Seq<GlCommand>, initial: u32) -> u32
    decreases cmds.len(),
{
    if cmds.len() == 0 {
        initial
    } else {
        match cmds.last() {
            GlCommand::BindArrayBuffer(b) => b,
            _ => array_buffer_binding_after(cmds.drop_last(), initial),
        }
    }
}

/// A command sequence whose final two commands unbind the array buffer and
/// then the vertex array leaves both bindings cleared, whatever was bound
/// before it ran.
pub proof fn lemma_trailing_unbinds_clear_bindings(cmds: Seq<GlCommand>, initial_vao: u32, initial_vbo: u32)
    requires
        cmds.len() >= 2,
        cmds[cmds.len() - 2] == GlCommand::BindArrayBuffer(0u32),
        cmds[cmds.len() - 1] == GlCommand::BindVertexArray(0u32),
    ensures
        vertex_array_binding_after(cmds, initial_vao) == 0,
        array_buffer_binding_after(cmds, initial_vbo) == 0,
{
    let shorter = cmds.drop_last();
    assert(cmds.last() == GlCommand::BindVertexArray(0u32));
    assert(shorter.last() == GlCommand::BindArrayBuffer(0u32));
    assert(array_buffer_binding_after(shorter, initial_vbo) == 0);
    assert(array_buffer_binding_after(cmds, initial_vbo) == array_buffer_binding_after(shorter, initial_vbo));
}

} // verus!
