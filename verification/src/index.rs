//! Index buffers: the element type of their indices, and the arguments of
//! an indexed draw call over a part of one.

use vstd::prelude::*;
use crate::constants::{UNSIGNED_INT, UNSIGNED_SHORT};
use crate::draw::{resolvable, resolve_range, resolved_end, resolved_start, Bound};

verus! {

/// The type of the indices in an index buffer.
#[derive(Debug, Clone, Copy, PartialEq, Eq, Structural)]
pub enum IndexType {
    /// 16-bit indices, for buffers of up to 65536 vertices.
    Short,
    /// 32-bit indices.
    Int,
}

impl IndexType {
    /// The WebGL value that stands for the index type.
    pub open spec fn code(self) -> u32 {
        match self {
            IndexType::Short => UNSIGNED_SHORT,
            IndexType::Int => UNSIGNED_INT,
        }
    }

    pub fn to_const(self) -> (c: u32)
        ensures
            c == self.code(),
    {
        match self {
            IndexType::Short => UNSIGNED_SHORT,
            IndexType::Int => UNSIGNED_INT,
        }
    }
}

/// Whether every index of a list fits in 32 bits.
pub open spec fn all_fit(indices: Seq<usize>) -> bool {
    forall|i: int| 0 <= i < indices.len() ==> #[trigger] indices[i] <= u32::MAX
}

/// Tells whether every index of a list fits in 32 bits.
pub fn indices_fit(indices: &Vec<usize>) -> (ok: bool)
    ensures
        ok == all_fit(indices@),
{
    let mut i: usize = 0;
    while i < indices.len()
        invariant
            i <= indices.len(),
            forall|k: int| 0 <= k < i ==> #[trigger] indices[k] <= u32::MAX,
        decreases indices.len() - i,
    {
        if indices[i] > 0xffff_ffff {
            return false;
        }
        i = i + 1;
    }
    true
}

/// Copies a list of indices as 32-bit numbers.
pub fn narrow_indices(indices: &Vec<usize>) -> (narrow: Vec<u32>)
    requires
        all_fit(indices@),
    ensures
        narrow.len() == indices.len(),
        forall|i: int| 0 <= i < indices.len() ==> #[trigger] narrow[i] == indices[i],
{
    let mut narrow: Vec<u32> = Vec::new();
    let mut i: usize = 0;
    while i < indices.len()
        invariant
            i <= indices.len(),
            all_fit(indices@),
            narrow.len() == i,
            forall|k: int| 0 <= k < i ==> #[trigger] narrow[k] == indices[k],
        decreases indices.len() - i,
    {
        narrow.push(indices[i] as u32);
        i = i + 1;
    }
    narrow
}

/// The arguments of an indexed draw call: how many indices to draw, and
/// from which position of the index buffer on.
#[derive(Debug, Clone, Copy, PartialEq, Eq, Structural)]
pub struct ElementRange {
    pub count: i32,
    pub offset: i32,
}

/// Computes the arguments of the draw call over a selection of an index
/// buffer of `len` indices.
pub fn element_range(start: Bound, end: Bound, len: usize) -> (range: ElementRange)
    requires
        resolvable(start, end, len),
    ensures
        range.offset == resolved_start(start),
        range.count == resolved_end(end, len) - resolved_start(start),
{
    let (first, past) = resolve_range(start, end, len);
    ElementRange { count: past - first, offset: first }
}

} // verus!
