//! The WebGL enumeration values that the wrappers pass to the rendering
//! context.

use vstd::prelude::*;

verus! {

/// Buffer contents are respecified rarely and used a few times.
pub const STREAM_DRAW: u32 = 0x88E0;

/// Buffer contents are specified once and used many times.
pub const STATIC_DRAW: u32 = 0x88E4;

/// Buffer contents are respecified repeatedly and used many times.
pub const DYNAMIC_DRAW: u32 = 0x88E8;

pub const POINTS: u32 = 0;

pub const LINES: u32 = 1;

pub const LINE_LOOP: u32 = 2;

pub const LINE_STRIP: u32 = 3;

pub const TRIANGLES: u32 = 4;

pub const TRIANGLE_STRIP: u32 = 5;

pub const TRIANGLE_FAN: u32 = 6;

pub const BYTE: u32 = 0x1400;

pub const UNSIGNED_BYTE: u32 = 0x1401;

pub const SHORT: u32 = 0x1402;

pub const UNSIGNED_SHORT: u32 = 0x1403;

pub const UNSIGNED_INT: u32 = 0x1405;

pub const FLOAT: u32 = 0x1406;

pub const DEPTH_BUFFER_BIT: u32 = 0x0100;

pub const STENCIL_BUFFER_BIT: u32 = 0x0400;

pub const COLOR_BUFFER_BIT: u32 = 0x4000;

} // verus!
