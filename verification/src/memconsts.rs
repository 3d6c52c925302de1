//! Dimensions and capacities that the hardware fixes.

use vstd::prelude::*;

verus! {

/// Pixels in one scanline.
pub const PIXELS_PER_LINE: usize = 256;

/// Visible scanlines in one frame.
pub const SCANLINES: usize = 192;

/// Pixels in one frame buffer.
pub const FRAME_PIXELS: usize = 49152;

/// Commands that the geometry FIFO can hold.
pub const FIFO_CAPACITY: usize = 256;

/// Commands that the look-ahead pipe can hold.
pub const PIPE_CAPACITY: usize = 4;

/// Vertices that one geometry buffer can hold.
pub const MAX_VERTICES: usize = 6188;

/// Polygons that one geometry buffer can hold.
pub const MAX_POLYGONS: usize = 2048;

/// Vertices that a polygon can have once it is clipped.
pub const MAX_POLYGON_VERTICES: usize = 10;

} // verus!
