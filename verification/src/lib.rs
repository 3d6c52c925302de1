//! Display pipeline of a dual-screen handheld console: the geometry command
//! engine, its rasterizer, and the two scanline compositors, together with the
//! small peripherals that sit beside them.

use vstd::prelude::*;

pub mod bios;
pub mod bits;
pub mod buffers;
pub mod clip;
pub mod compose;
pub mod emu_window;
pub mod emuthread;
pub mod firmware;
pub mod fixed;
pub mod geometry;
pub mod matrix;
pub mod mtxstate;
pub mod raster;
pub mod memconsts;
pub mod gpu3d;
pub mod gpueng;
pub mod gxstate;
pub mod interrupts;
pub mod touchscreen;
