//! What the compositor does to one pixel: colour formats, the order of the
//! layers, and the blend effects.

use vstd::prelude::*;
use crate::bits::{field, get_field};

verus! {

/// What one layer shows at one column: its colour, the layer it comes from
/// and the priority it was drawn with.
#[derive(Debug, Clone, Copy)]
pub struct LayerPixel {
    pub color: u32,
    pub layer: u8,
    pub priority: u8,
}

/// The two frontmost pixels at one column: the one that is shown and the one
/// right behind it, which blending mixes in.
#[derive(Debug, Clone, Copy)]
pub struct PixelStack {
    pub top: LayerPixel,
    pub under: LayerPixel,
}

/// Layer number of the sprites.
pub const LAYER_OBJ: u8 = 4;

/// Layer number of the backdrop.
pub const LAYER_BACKDROP: u8 = 5;

/// Priority of the backdrop, behind every layer.
pub const BACKDROP_PRIORITY: u8 = 4;

/// The colour that a blank display shows.
pub const BLANK_COLOR: u32 = 0xFFF3F3F3;

/// Opaque black.
pub const BLACK: u32 = 0xFF000000;

/// A 15-bit colour as an opaque 32-bit one: each five-bit channel becomes
/// the high bits of an eight-bit one, red in bits 16 to 23, green in bits 8
/// to 15, blue in bits 0 to 7.
pub open spec fn argb(color: u16) -> u32 {
    let c = color as u32;
    0xFF000000u32 | (((c & 0x1F) << 3) << 16) | ((((c >> 5) & 0x1F) << 3) << 8) | (((c >> 10)
        & 0x1F) << 3)
}

pub fn to_argb(color: u16) -> (r: u32)
    ensures
        r == argb(color),
{
    let c = color as u32;
    0xFF000000u32 | (((c & 0x1F) << 3) << 16) | ((((c >> 5) & 0x1F) << 3) << 8) | (((c >> 10)
        & 0x1F) << 3)
}

/// The byte of `mem` at `addr`; memory that is not there reads as zero.
pub open spec fn byte_at(mem: Seq<u8>, addr: int) -> u8 {
    if 0 <= addr < mem.len() {
        mem[addr]
    } else {
        0
    }
}

/// The little-endian halfword of `mem` at `addr`.
pub open spec fn half_at(mem: Seq<u8>, addr: int) -> u32 {
    (byte_at(mem, addr) as u32) | ((byte_at(mem, addr + 1) as u32) << 8)
}

/// Entry `index` of a palette; an entry that is not there reads as zero.
pub open spec fn palette_at(palette: Seq<u16>, index: int) -> u16 {
    if 0 <= index < palette.len() {
        palette[index]
    } else {
        0
    }
}

pub fn read_byte(mem: &Vec<u8>, addr: usize) -> (r: u8)
    ensures
        r == byte_at(mem@, addr as int),
{
    if addr < mem.len() {
        mem[addr]
    } else {
        0
    }
}

pub fn read_half(mem: &Vec<u8>, addr: usize) -> (r: u32)
    requires
        addr < usize::MAX,
    ensures
        r == half_at(mem@, addr as int),
{
    (read_byte(mem, addr) as u32) | ((read_byte(mem, addr + 1) as u32) << 8)
}

pub fn read_palette(palette: &Vec<u16>, index: usize) -> (r: u16)
    ensures
        r == palette_at(palette@, index as int),
{
    if index < palette.len() {
        palette[index]
    } else {
        0
    }
}

/// Where a layer stands among layers of one priority: sprites in front,
/// then the backgrounds by number, the backdrop last.
pub open spec fn layer_rank(layer: u8) -> int {
    if layer == LAYER_OBJ {
        0
    } else {
        layer as int + 1
    }
}

/// `a` is shown in front of `b`: it has the lower priority number, or the
/// same and the better rank.
pub open spec fn beats(a: LayerPixel, b: LayerPixel) -> bool {
    a.priority < b.priority || (a.priority == b.priority && layer_rank(a.layer) < layer_rank(
        b.layer,
    ))
}

pub fn beats_exec(a: &LayerPixel, b: &LayerPixel) -> (r: bool)
    ensures
        r == beats(*a, *b),
{
    let rank_a: u16 = if a.layer == LAYER_OBJ {
        0
    } else {
        a.layer as u16 + 1
    };
    let rank_b: u16 = if b.layer == LAYER_OBJ {
        0
    } else {
        b.layer as u16 + 1
    };
    a.priority < b.priority || (a.priority == b.priority && rank_a < rank_b)
}

/// The column after `p` is drawn on it: `p` goes in front, or right behind
/// the front pixel, or is hidden by both.
pub open spec fn paint(stack: PixelStack, p: LayerPixel) -> PixelStack {
    if beats(p, stack.top) {
        PixelStack { top: p, under: stack.top }
    } else if beats(p, stack.under) {
        PixelStack { top: stack.top, under: p }
    } else {
        stack
    }
}

pub fn paint_exec(stack: PixelStack, p: LayerPixel) -> (r: PixelStack)
    ensures
        r == paint(stack, p),
{
    if beats_exec(&p, &stack.top) {
        PixelStack { top: p, under: stack.top }
    } else if beats_exec(&p, &stack.under) {
        PixelStack { top: stack.top, under: p }
    } else {
        stack
    }
}

/// The column after a layer is drawn on it that shows `color` there, or
/// nothing where `color` is `None`.
pub open spec fn paint_layer(stack: PixelStack, color: Option<u32>, layer: u8, priority: u8) -> PixelStack {
    match color {
        Some(c) => paint(stack, LayerPixel { color: c, layer, priority }),
        None => stack,
    }
}

/// The backdrop in both places of a column, in the colour given.
pub open spec fn backdrop_stack(color: u32) -> PixelStack {
    let p = LayerPixel { color, layer: LAYER_BACKDROP, priority: BACKDROP_PRIORITY };
    PixelStack { top: p, under: p }
}

/// One five-bit channel of an opaque colour: `shift` is 19 for red, 11 for
/// green, 3 for blue.
pub open spec fn channel(color: u32, shift: u32) -> u32 {
    (color >> shift) & 0x1F
}

/// An opaque colour from three five-bit channels.
pub open spec fn from_channels(r: u32, g: u32, b: u32) -> u32 {
    0xFF000000u32 | ((r & 0x1F) << 19) | ((g & 0x1F) << 11) | ((b & 0x1F) << 3)
}

/// Alpha blending of one channel: the two intensities weighted by sixteenths
/// and the sum cut off at full intensity.
pub open spec fn mix_channel(first: u32, second: u32, eva: u32, evb: u32) -> u32 {
    let sum = (first * eva + second * evb) / 16;
    if sum > 31 {
        31u32
    } else {
        sum as u32
    }
}

/// Brightening of one channel by `evy` sixteenths of what is missing to full
/// intensity.
pub open spec fn brighten_channel(first: u32, evy: u32) -> u32 {
    (first + ((31 - first) * evy) / 16) as u32
}

/// Darkening of one channel by `evy` sixteenths of its intensity.
pub open spec fn darken_channel(first: u32, evy: u32) -> u32 {
    (first - (first * evy) / 16) as u32
}

/// Alpha blending of two colours with factors of at most 16.
pub open spec fn blend_alpha(first: u32, second: u32, eva: u32, evb: u32) -> u32 {
    from_channels(
        mix_channel(channel(first, 19), channel(second, 19), eva, evb),
        mix_channel(channel(first, 11), channel(second, 11), eva, evb),
        mix_channel(channel(first, 3), channel(second, 3), eva, evb),
    )
}

/// A colour made brighter by a factor of at most 16.
pub open spec fn blend_brighten(first: u32, evy: u32) -> u32 {
    from_channels(
        brighten_channel(channel(first, 19), evy),
        brighten_channel(channel(first, 11), evy),
        brighten_channel(channel(first, 3), evy),
    )
}

/// A colour made darker by a factor of at most 16.
pub open spec fn blend_darken(first: u32, evy: u32) -> u32 {
    from_channels(
        darken_channel(channel(first, 19), evy),
        darken_channel(channel(first, 11), evy),
        darken_channel(channel(first, 3), evy),
    )
}

fn get_channel(color: u32, shift: u32) -> (r: u32)
    requires
        shift < 32,
    ensures
        r == channel(color, shift),
        r <= 31,
{
    get_field(color, shift, 0x1F)
}

pub fn make_color(r: u32, g: u32, b: u32) -> (c: u32)
    ensures
        c == from_channels(r, g, b),
{
    0xFF000000u32 | ((r & 0x1F) << 19) | ((g & 0x1F) << 11) | ((b & 0x1F) << 3)
}

fn mix_channel_exec(first: u32, second: u32, eva: u32, evb: u32) -> (r: u32)
    requires
        first <= 31,
        second <= 31,
        eva <= 16,
        evb <= 16,
    ensures
        r == mix_channel(first, second, eva, evb),
        r <= 31,
{
    assert(first * eva <= 31 * 16) by (nonlinear_arith)
        requires
            first <= 31,
            eva <= 16,
    ;
    assert(second * evb <= 31 * 16) by (nonlinear_arith)
        requires
            second <= 31,
            evb <= 16,
    ;
    let sum = (first * eva + second * evb) / 16;
    if sum > 31 {
        31
    } else {
        sum
    }
}

fn brighten_channel_exec(first: u32, evy: u32) -> (r: u32)
    requires
        first <= 31,
        evy <= 16,
    ensures
        r == brighten_channel(first, evy),
        r <= 31,
{
    assert(0 <= (31 - first) * evy <= (31 - first) * 16) by (nonlinear_arith)
        requires
            first <= 31,
            evy <= 16,
    ;
    first + ((31 - first) * evy) / 16
}

fn darken_channel_exec(first: u32, evy: u32) -> (r: u32)
    requires
        first <= 31,
        evy <= 16,
    ensures
        r == darken_channel(first, evy),
        r <= 31,
{
    assert(0 <= first * evy <= first * 16) by (nonlinear_arith)
        requires
            first <= 31,
            evy <= 16,
    ;
    first - (first * evy) / 16
}

pub fn blend_alpha_exec(first: u32, second: u32, eva: u32, evb: u32) -> (r: u32)
    requires
        eva <= 16,
        evb <= 16,
    ensures
        r == blend_alpha(first, second, eva, evb),
{
    make_color(
        mix_channel_exec(get_channel(first, 19), get_channel(second, 19), eva, evb),
        mix_channel_exec(get_channel(first, 11), get_channel(second, 11), eva, evb),
        mix_channel_exec(get_channel(first, 3), get_channel(second, 3), eva, evb),
    )
}

pub fn blend_brighten_exec(first: u32, evy: u32) -> (r: u32)
    requires
        evy <= 16,
    ensures
        r == blend_brighten(first, evy),
{
    make_color(
        brighten_channel_exec(get_channel(first, 19), evy),
        brighten_channel_exec(get_channel(first, 11), evy),
        brighten_channel_exec(get_channel(first, 3), evy),
    )
}

pub fn blend_darken_exec(first: u32, evy: u32) -> (r: u32)
    requires
        evy <= 16,
    ensures
        r == blend_darken(first, evy),
{
    make_color(
        darken_channel_exec(get_channel(first, 19), evy),
        darken_channel_exec(get_channel(first, 11), evy),
        darken_channel_exec(get_channel(first, 3), evy),
    )
}

/// A horizontal or vertical window register holds two bounds, the first in
/// its high byte and the second in its low byte. A position is inside from
/// the first bound up to, not including, the second; where the second is
/// below the first, the window reaches to the edge of the screen.
pub open spec fn inside_window(bounds: u16, position: u32) -> bool {
    let first = field(bounds as u32, 8, 0xFF);
    let second = field(bounds as u32, 0, 0xFF);
    if first <= second {
        first <= position && position < second
    } else {
        first <= position
    }
}

pub fn inside_window_exec(bounds: u16, position: u32) -> (r: bool)
    ensures
        r == inside_window(bounds, position),
{
    let first = get_field(bounds as u32, 8, 0xFF);
    let second = get_field(bounds as u32, 0, 0xFF);
    if first <= second {
        first <= position && position < second
    } else {
        first <= position
    }
}

} // verus!
