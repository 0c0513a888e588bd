//! Parameters of buffer uploads and draw calls, and the resolution of an
//! index selection against a buffer's length.

use vstd::prelude::*;
use crate::constants::{
    COLOR_BUFFER_BIT, DEPTH_BUFFER_BIT, DYNAMIC_DRAW, LINES, LINE_LOOP, LINE_STRIP, POINTS,
    STATIC_DRAW, STENCIL_BUFFER_BIT, STREAM_DRAW, TRIANGLES, TRIANGLE_FAN, TRIANGLE_STRIP,
};

verus! {

/// How the contents of a buffer are going to be used.
#[derive(Debug, Clone, Copy, PartialEq, Eq, Structural)]
pub enum BufferDataUsage {
    /// Specified once, used many times.
    StaticDraw,
    /// Respecified repeatedly, used many times.
    DynamicDraw,
    /// Specified once, used at most a few times.
    StreamDraw,
}

impl BufferDataUsage {
    /// The WebGL value that stands for this usage.
    pub open spec fn code(self) -> u32 {
        match self {
            BufferDataUsage::StaticDraw => STATIC_DRAW,
            BufferDataUsage::DynamicDraw => DYNAMIC_DRAW,
            BufferDataUsage::StreamDraw => STREAM_DRAW,
        }
    }

    pub fn to_const(self) -> (c: u32)
        ensures
            c == self.code(),
    {
        match self {
            BufferDataUsage::StaticDraw => STATIC_DRAW,
            BufferDataUsage::DynamicDraw => DYNAMIC_DRAW,
            BufferDataUsage::StreamDraw => STREAM_DRAW,
        }
    }

    /// Different usages have different WebGL values.
    pub proof fn code_is_injective(a: BufferDataUsage, b: BufferDataUsage)
        requires
            a.code() == b.code(),
        ensures
            a == b,
    {
    }
}

/// The primitive that a draw call assembles from the vertices.
#[derive(Debug, Clone, Copy, PartialEq, Eq, Structural)]
pub enum RenderPrimitiveType {
    /// A single dot per vertex.
    Points,
    /// A line from each vertex to the next.
    LineStrip,
    /// A line strip that is closed back to the first vertex.
    LineLoop,
    /// A line for each pair of vertices.
    Lines,
    /// A strip of triangles that share edges.
    TriangleStrip,
    /// A fan of triangles around the first vertex.
    TriangleFan,
    /// A triangle for each group of three vertices.
    Triangles,
}

impl RenderPrimitiveType {
    /// The WebGL value that stands for this primitive.
    pub open spec fn code(self) -> u32 {
        match self {
            RenderPrimitiveType::Points => POINTS,
            RenderPrimitiveType::LineStrip => LINE_STRIP,
            RenderPrimitiveType::LineLoop => LINE_LOOP,
            RenderPrimitiveType::Lines => LINES,
            RenderPrimitiveType::TriangleStrip => TRIANGLE_STRIP,
            RenderPrimitiveType::TriangleFan => TRIANGLE_FAN,
            RenderPrimitiveType::Triangles => TRIANGLES,
        }
    }

    pub fn to_const(self) -> (c: u32)
        ensures
            c == self.code(),
    {
        match self {
            RenderPrimitiveType::Points => POINTS,
            RenderPrimitiveType::LineStrip => LINE_STRIP,
            RenderPrimitiveType::LineLoop => LINE_LOOP,
            RenderPrimitiveType::Lines => LINES,
            RenderPrimitiveType::TriangleStrip => TRIANGLE_STRIP,
            RenderPrimitiveType::TriangleFan => TRIANGLE_FAN,
            RenderPrimitiveType::Triangles => TRIANGLES,
        }
    }

    /// Different primitives have different WebGL values.
    pub proof fn code_is_injective(a: RenderPrimitiveType, b: RenderPrimitiveType)
        requires
            a.code() == b.code(),
        ensures
            a == b,
    {
    }
}

/// One end of an index selection.
#[derive(Debug, Clone, Copy, PartialEq, Eq, Structural)]
pub enum Bound {
    /// The selection reaches this position and holds it.
    Included(usize),
    /// The selection reaches this position and leaves it out.
    Excluded(usize),
    /// The selection runs to the end of the buffer on this side.
    Unbounded,
}

/// The first position that a selection starting at `start` resolves to: a
/// start that is left out resolves to the position just after it.
pub open spec fn resolved_start(start: Bound) -> int {
    match start {
        Bound::Included(x) => x as int,
        Bound::Excluded(x) => x + 1,
        Bound::Unbounded => 0,
    }
}

/// The position just past a selection ending at `end`, in a buffer of `len`
/// elements.
pub open spec fn resolved_end(end: Bound, len: usize) -> int {
    match end {
        Bound::Included(x) => x + 1,
        Bound::Excluded(x) => x as int,
        Bound::Unbounded => len as int,
    }
}

/// Whether a selection can be resolved: it ends within the buffer, and both
/// of its ends are representable as the signed 32-bit offsets that a draw
/// call takes.
pub open spec fn resolvable(start: Bound, end: Bound, len: usize) -> bool {
    &&& len <= i32::MAX
    &&& resolved_start(start) <= i32::MAX
    &&& resolved_end(end, len) <= len
}

/// Tells whether [`resolve_range`] may be called on a selection.
pub fn is_resolvable(start: Bound, end: Bound, len: usize) -> (ok: bool)
    ensures
        ok == resolvable(start, end, len),
{
    if len > 0x7fff_ffff {
        return false;
    }
    let start_ok = match start {
        Bound::Included(x) => x <= 0x7fff_ffff,
        Bound::Excluded(x) => x < 0x7fff_ffff,
        Bound::Unbounded => true,
    };
    let end_ok = match end {
        Bound::Included(x) => x < len,
        Bound::Excluded(x) => x <= len,
        Bound::Unbounded => true,
    };
    start_ok && end_ok
}

/// Resolves a selection against a buffer of `len` elements into the pair of
/// its first position and the position just past its last.
pub fn resolve_range(start: Bound, end: Bound, len: usize) -> (range: (i32, i32))
    requires
        resolvable(start, end, len),
    ensures
        range.0 == resolved_start(start),
        range.1 == resolved_end(end, len),
        0 <= range.0,
        0 <= range.1 <= len,
{
    let first: i32 = match start {
        Bound::Included(x) => x as i32,
        Bound::Excluded(x) => (x + 1) as i32,
        Bound::Unbounded => 0,
    };
    let past: i32 = match end {
        Bound::Included(x) => (x + 1) as i32,
        Bound::Excluded(x) => x as i32,
        Bound::Unbounded => len as i32,
    };
    (first, past)
}

/// The bit mask that selects which of the color, depth and stencil buffers a
/// clear call resets.
pub open spec fn clear_bits(color: bool, depth: bool, stencil: bool) -> u32 {
    let c: u32 = if color { COLOR_BUFFER_BIT } else { 0 };
    let d: u32 = if depth { DEPTH_BUFFER_BIT } else { 0 };
    let s: u32 = if stencil { STENCIL_BUFFER_BIT } else { 0 };
    c | d | s
}

/// Computes the mask of a clear call from the buffers that are to be reset.
pub fn clear_mask(color: bool, depth: bool, stencil: bool) -> (mask: u32)
    ensures
        mask == clear_bits(color, depth, stencil),
{
    let c: u32 = if color { COLOR_BUFFER_BIT } else { 0 };
    let d: u32 = if depth { DEPTH_BUFFER_BIT } else { 0 };
    let s: u32 = if stencil { STENCIL_BUFFER_BIT } else { 0 };
    c | d | s
}

/// A clear mask names a buffer exactly when that buffer was asked for.
pub proof fn clear_mask_selects(color: bool, depth: bool, stencil: bool)
    ensures
        (clear_bits(color, depth, stencil) & COLOR_BUFFER_BIT != 0) == color,
        (clear_bits(color, depth, stencil) & DEPTH_BUFFER_BIT != 0) == depth,
        (clear_bits(color, depth, stencil) & STENCIL_BUFFER_BIT != 0) == stencil,
{
    let c: u32 = if color { 0x4000 } else { 0 };
    let d: u32 = if depth { 0x0100 } else { 0 };
    let s: u32 = if stencil { 0x0400 } else { 0 };
    assert((c == 0 || c == 0x4000) && (d == 0 || d == 0x0100) && (s == 0 || s == 0x0400) ==> (((c
        | d | s) & 0x4000 != 0) == (c != 0) && ((c | d | s) & 0x0100 != 0) == (d != 0) && ((c | d
        | s) & 0x0400 != 0) == (s != 0))) by (bit_vector);
}

} // verus!
