//! The 2D engine: its register bank and the scanline compositor.

use vstd::prelude::*;
use crate::bits::{
    flag, field, flag_bits, field_bits, test_bit, get_field, put_flag, put_field, lemma_field_bound,
};
use crate::buffers::filled;
use crate::fixed::{floor_div, floor_mod};
use crate::gpu3d::Gpu3D;
use crate::compose::{
    LayerPixel, PixelStack, LAYER_OBJ, LAYER_BACKDROP, BACKDROP_PRIORITY, BLANK_COLOR, BLACK,
    argb, to_argb, byte_at, half_at, palette_at, read_byte, read_half, read_palette,
    paint_exec, paint_layer, backdrop_stack, blend_alpha, blend_brighten, blend_darken,
    blend_alpha_exec, blend_brighten_exec, blend_darken_exec, inside_window,
    inside_window_exec,
};
use crate::memconsts::{PIXELS_PER_LINE, SCANLINES, FRAME_PIXELS};

verus! {

/// Display control register.
#[derive(Debug, Clone, Copy)]
pub struct DispCnt {
    pub bg_mode: i32,
    pub bg_3d: bool,
    pub tile_obj_1d: bool,
    pub bitmap_obj_square: bool,
    pub bitmap_obj_1d: bool,
    pub display_bg0: bool,
    pub display_bg1: bool,
    pub display_bg2: bool,
    pub display_bg3: bool,
    pub display_obj: bool,
    pub display_win0: bool,
    pub display_win1: bool,
    pub obj_win_display: bool,
    pub display_mode: i32,
    pub vram_block: i32,
    pub tile_obj_1d_bound: i32,
    pub bitmap_obj_1d_bound: bool,
    pub hblank_obj_processing: bool,
    pub char_base: i32,
    pub screen_base: i32,
    pub bg_extended_palette: bool,
    pub obj_extended_palette: bool,
}

impl DispCnt {
    /// The register with every field clear.
    pub open spec fn cleared() -> DispCnt {
        DispCnt {
            bg_mode: 0,
            bg_3d: false,
            tile_obj_1d: false,
            bitmap_obj_square: false,
            bitmap_obj_1d: false,
            display_bg0: false,
            display_bg1: false,
            display_bg2: false,
            display_bg3: false,
            display_obj: false,
            display_win0: false,
            display_win1: false,
            obj_win_display: false,
            display_mode: 0,
            vram_block: 0,
            tile_obj_1d_bound: 0,
            bitmap_obj_1d_bound: false,
            hblank_obj_processing: false,
            char_base: 0,
            screen_base: 0,
            bg_extended_palette: false,
            obj_extended_palette: false,
        }
    }

    /// The fields that the low half of a written word selects, the others kept.
    pub open spec fn with_low(self, halfword: u16) -> DispCnt {
        let w = halfword as u32;
        DispCnt {
            bg_mode: field(w, 0, 7) as i32,
            bg_3d: flag(w, 3),
            tile_obj_1d: flag(w, 4),
            bitmap_obj_square: flag(w, 5),
            bitmap_obj_1d: flag(w, 6),
            display_bg0: flag(w, 8),
            display_bg1: flag(w, 9),
            display_bg2: flag(w, 10),
            display_bg3: flag(w, 11),
            display_obj: flag(w, 12),
            display_win0: flag(w, 13),
            display_win1: flag(w, 14),
            obj_win_display: flag(w, 15),
            ..self
        }
    }

    /// The fields that the high half of a written word selects, the others kept.
    pub open spec fn with_high(self, word: u32) -> DispCnt {
        DispCnt {
            display_mode: field(word, 16, 3) as i32,
            vram_block: field(word, 18, 3) as i32,
            tile_obj_1d_bound: field(word, 20, 3) as i32,
            bitmap_obj_1d_bound: flag(word, 22),
            hblank_obj_processing: flag(word, 23),
            char_base: field(word, 24, 7) as i32,
            screen_base: field(word, 27, 7) as i32,
            bg_extended_palette: flag(word, 30),
            obj_extended_palette: flag(word, 31),
            ..self
        }
    }

    /// The register after `word` is written to it.
    pub open spec fn written(self, word: u32) -> DispCnt {
        self.with_low((word & 0xFFFF) as u16).with_high(word)
    }

    /// Bits 0 to 6 of the register: the background mode and the sprite
    /// mapping flags.
    pub open spec fn mode_bits(self) -> u32 {
        field_bits(self.bg_mode as u32, 0, 7) | flag_bits(self.bg_3d, 3) | flag_bits(
            self.tile_obj_1d,
            4,
        ) | flag_bits(self.bitmap_obj_square, 5) | flag_bits(self.bitmap_obj_1d, 6)
    }

    /// Bits 8 to 12 of the register: which layers are shown.
    pub open spec fn layer_bits(self) -> u32 {
        flag_bits(self.display_bg0, 8) | flag_bits(self.display_bg1, 9) | flag_bits(
            self.display_bg2,
            10,
        ) | flag_bits(self.display_bg3, 11) | flag_bits(self.display_obj, 12)
    }

    /// Bits 13 to 15 of the register: which windows are on.
    pub open spec fn window_bits(self) -> u32 {
        flag_bits(self.display_win0, 13) | flag_bits(self.display_win1, 14) | flag_bits(
            self.obj_win_display,
            15,
        )
    }

    /// Bits 16 to 23 of the register: the display mode and the sprite
    /// boundaries.
    pub open spec fn display_bits(self) -> u32 {
        field_bits(self.display_mode as u32, 16, 3) | field_bits(self.vram_block as u32, 18, 3)
            | field_bits(self.tile_obj_1d_bound as u32, 20, 3) | flag_bits(
            self.bitmap_obj_1d_bound,
            22,
        ) | flag_bits(self.hblank_obj_processing, 23)
    }

    /// Bits 24 to 31 of the register: the base blocks and the extended
    /// palettes.
    pub open spec fn base_bits(self) -> u32 {
        field_bits(self.char_base as u32, 24, 7) | field_bits(self.screen_base as u32, 27, 7)
            | flag_bits(self.bg_extended_palette, 30) | flag_bits(self.obj_extended_palette, 31)
    }

    /// The word that a read of the register returns.
    pub open spec fn encode(self) -> u32 {
        self.mode_bits() | self.layer_bits() | self.window_bits() | self.display_bits()
            | self.base_bits()
    }

    fn pack_mode(&self) -> (r: u32)
        ensures
            r == self.mode_bits(),
    {
        put_field(self.bg_mode as u32, 0, 7) | put_flag(self.bg_3d, 3) | put_flag(
            self.tile_obj_1d,
            4,
        ) | put_flag(self.bitmap_obj_square, 5) | put_flag(self.bitmap_obj_1d, 6)
    }

    fn pack_layers(&self) -> (r: u32)
        ensures
            r == self.layer_bits(),
    {
        put_flag(self.display_bg0, 8) | put_flag(self.display_bg1, 9) | put_flag(
            self.display_bg2,
            10,
        ) | put_flag(self.display_bg3, 11) | put_flag(self.display_obj, 12)
    }

    fn pack_windows(&self) -> (r: u32)
        ensures
            r == self.window_bits(),
    {
        put_flag(self.display_win0, 13) | put_flag(self.display_win1, 14) | put_flag(
            self.obj_win_display,
            15,
        )
    }

    fn pack_display(&self) -> (r: u32)
        ensures
            r == self.display_bits(),
    {
        put_field(self.display_mode as u32, 16, 3) | put_field(self.vram_block as u32, 18, 3)
            | put_field(self.tile_obj_1d_bound as u32, 20, 3) | put_flag(
            self.bitmap_obj_1d_bound,
            22,
        ) | put_flag(self.hblank_obj_processing, 23)
    }

    fn pack_bases(&self) -> (r: u32)
        ensures
            r == self.base_bits(),
    {
        put_field(self.char_base as u32, 24, 7) | put_field(self.screen_base as u32, 27, 7)
            | put_flag(self.bg_extended_palette, 30) | put_flag(self.obj_extended_palette, 31)
    }
}

impl Default for DispCnt {
    fn default() -> (r: DispCnt)
        ensures
            r == DispCnt::cleared(),
    {
        DispCnt {
            bg_mode: 0,
            bg_3d: false,
            tile_obj_1d: false,
            bitmap_obj_square: false,
            bitmap_obj_1d: false,
            display_bg0: false,
            display_bg1: false,
            display_bg2: false,
            display_bg3: false,
            display_obj: false,
            display_win0: false,
            display_win1: false,
            obj_win_display: false,
            display_mode: 0,
            vram_block: 0,
            tile_obj_1d_bound: 0,
            bitmap_obj_1d_bound: false,
            hblank_obj_processing: false,
            char_base: 0,
            screen_base: 0,
            bg_extended_palette: false,
            obj_extended_palette: false,
        }
    }
}

/// Display capture control register.
#[derive(Debug, Clone, Copy)]
pub struct DispCapCnt {
    pub eva: i32,
    pub evb: i32,
    pub vram_write_block: i32,
    pub vram_write_offset: i32,
    pub capture_size: i32,
    pub a_3d_only: bool,
    pub b_display_fifo: bool,
    pub vram_read_offset: i32,
    pub capture_source: i32,
    pub enable_busy: bool,
}

/// A five-bit blend factor as the hardware takes it: values above 16 count as 16.
pub open spec fn clamp_factor(raw: u32) -> u32 {
    if raw > 16 {
        16
    } else {
        raw
    }
}

pub fn clamp_factor_exec(raw: u32) -> (r: u32)
    ensures
        r == clamp_factor(raw),
        r <= 16,
{
    if raw > 16 {
        16
    } else {
        raw
    }
}

impl DispCapCnt {
    /// The register with every field clear.
    pub open spec fn cleared() -> DispCapCnt {
        DispCapCnt {
            eva: 0,
            evb: 0,
            vram_write_block: 0,
            vram_write_offset: 0,
            capture_size: 0,
            a_3d_only: false,
            b_display_fifo: false,
            vram_read_offset: 0,
            capture_source: 0,
            enable_busy: false,
        }
    }

    /// The register as a written word sets it; both blend factors are clamped to 16.
    pub open spec fn decode(word: u32) -> DispCapCnt {
        DispCapCnt {
            eva: clamp_factor(field(word, 0, 0x1F)) as i32,
            evb: clamp_factor(field(word, 8, 0x1F)) as i32,
            vram_write_block: field(word, 16, 3) as i32,
            vram_write_offset: field(word, 18, 3) as i32,
            capture_size: field(word, 20, 3) as i32,
            a_3d_only: flag(word, 24),
            b_display_fifo: flag(word, 25),
            vram_read_offset: field(word, 26, 3) as i32,
            capture_source: field(word, 29, 3) as i32,
            enable_busy: flag(word, 31),
        }
    }

    /// Bits 0 to 21 of the word that a read returns: the two blend
    /// factors and where the capture is written.
    pub open spec fn target_bits(self) -> u32 {
        field_bits(self.eva as u32, 0, 0x1F) | field_bits(self.evb as u32, 8, 0x1F) | field_bits(
            self.vram_write_block as u32,
            16,
            3,
        ) | field_bits(self.vram_write_offset as u32, 18, 3) | field_bits(
            self.capture_size as u32,
            20,
            3,
        )
    }

    /// Bits 24 to 31 of the word that a read returns: what is captured,
    /// and whether a capture is under way.
    pub open spec fn source_bits(self) -> u32 {
        flag_bits(self.a_3d_only, 24) | flag_bits(self.b_display_fifo, 25) | field_bits(
            self.vram_read_offset as u32,
            26,
            3,
        ) | field_bits(self.capture_source as u32, 29, 3) | flag_bits(self.enable_busy, 31)
    }

    /// The word that a read of the register returns, rebuilt from its
    /// fields.
    pub open spec fn encode(self) -> u32 {
        self.target_bits() | self.source_bits()
    }

    fn pack_target(&self) -> (r: u32)
        ensures
            r == self.target_bits(),
    {
        put_field(self.eva as u32, 0, 0x1F) | put_field(self.evb as u32, 8, 0x1F) | put_field(
            self.vram_write_block as u32,
            16,
            3,
        ) | put_field(self.vram_write_offset as u32, 18, 3) | put_field(
            self.capture_size as u32,
            20,
            3,
        )
    }

    fn pack_source(&self) -> (r: u32)
        ensures
            r == self.source_bits(),
    {
        put_flag(self.a_3d_only, 24) | put_flag(self.b_display_fifo, 25) | put_field(
            self.vram_read_offset as u32,
            26,
            3,
        ) | put_field(self.capture_source as u32, 29, 3) | put_flag(self.enable_busy, 31)
    }
}

impl Default for DispCapCnt {
    fn default() -> (r: DispCapCnt)
        ensures
            r == DispCapCnt::cleared(),
    {
        DispCapCnt {
            eva: 0,
            evb: 0,
            vram_write_block: 0,
            vram_write_offset: 0,
            capture_size: 0,
            a_3d_only: false,
            b_display_fifo: false,
            vram_read_offset: 0,
            capture_source: 0,
            enable_busy: false,
        }
    }
}

/// The four background bits of a window register, from bit `base` on.
pub open spec fn flags4(word: u32, base: u32) -> [bool; 4] {
    [flag(word, base), flag(word, (base + 1) as u32), flag(word, (base + 2) as u32), flag(word, (base + 3) as u32)]
}

/// Four flags as bits `base` to `base + 3` of a word.
pub open spec fn flags4_bits(flags: [bool; 4], base: u32) -> u32 {
    flag_bits(flags[0], base) | flag_bits(flags[1], (base + 1) as u32) | flag_bits(
        flags[2],
        (base + 2) as u32,
    ) | flag_bits(flags[3], (base + 3) as u32)
}

pub fn get_flags4(word: u32, base: u32) -> (r: [bool; 4])
    requires
        base <= 28,
    ensures
        r == flags4(word, base),
{
    let r = [test_bit(word, base), test_bit(word, base + 1), test_bit(word, base + 2), test_bit(word, base + 3)];
    assert(r =~= flags4(word, base));
    r
}

pub fn put_flags4(flags: &[bool; 4], base: u32) -> (r: u32)
    requires
        base <= 28,
    ensures
        r == flags4_bits(*flags, base),
{
    put_flag(flags[0], base) | put_flag(flags[1], base + 1) | put_flag(flags[2], base + 2) | put_flag(flags[3], base + 3)
}

/// Window input enable registers.
#[derive(Debug, Clone, Copy)]
pub struct WinIn {
    pub win0_bg_enabled: [bool; 4],
    pub win0_obj_enabled: bool,
    pub win0_color_special: bool,
    pub win1_bg_enabled: [bool; 4],
    pub win1_obj_enabled: bool,
    pub win1_color_special: bool,
}

impl WinIn {
    /// The register as a written halfword sets it.
    pub open spec fn decode(halfword: u16) -> WinIn {
        let w = halfword as u32;
        WinIn {
            win0_bg_enabled: flags4(w, 0),
            win0_obj_enabled: flag(w, 4),
            win0_color_special: flag(w, 5),
            win1_bg_enabled: flags4(w, 8),
            win1_obj_enabled: flag(w, 12),
            win1_color_special: flag(w, 13),
        }
    }

    /// The halfword that a read of the register returns.
    pub open spec fn encode(self) -> u16 {
        (flags4_bits(self.win0_bg_enabled, 0) | flag_bits(self.win0_obj_enabled, 4) | flag_bits(
            self.win0_color_special,
            5,
        ) | flags4_bits(self.win1_bg_enabled, 8) | flag_bits(self.win1_obj_enabled, 12)
            | flag_bits(self.win1_color_special, 13)) as u16
    }
}

impl Default for WinIn {
    fn default() -> (r: WinIn)
        ensures
            r == WinIn::decode(0),
    {
        let r = WinIn {
            win0_bg_enabled: get_flags4(0, 0),
            win0_obj_enabled: test_bit(0, 4),
            win0_color_special: test_bit(0, 5),
            win1_bg_enabled: get_flags4(0, 8),
            win1_obj_enabled: test_bit(0, 12),
            win1_color_special: test_bit(0, 13),
        };
        r
    }
}

/// Window output enable registers.
#[derive(Debug, Clone, Copy)]
pub struct WinOut {
    pub outside_bg_enabled: [bool; 4],
    pub outside_obj_enabled: bool,
    pub outside_color_special: bool,
    pub objwin_bg_enabled: [bool; 4],
    pub objwin_obj_enabled: bool,
    pub objwin_color_special: bool,
}

impl WinOut {
    /// The register as a written halfword sets it.
    pub open spec fn decode(halfword: u16) -> WinOut {
        let w = halfword as u32;
        WinOut {
            outside_bg_enabled: flags4(w, 0),
            outside_obj_enabled: flag(w, 4),
            outside_color_special: flag(w, 5),
            objwin_bg_enabled: flags4(w, 8),
            objwin_obj_enabled: flag(w, 12),
            objwin_color_special: flag(w, 13),
        }
    }

    /// The halfword that a read of the register returns.
    pub open spec fn encode(self) -> u16 {
        (flags4_bits(self.outside_bg_enabled, 0) | flag_bits(self.outside_obj_enabled, 4)
            | flag_bits(self.outside_color_special, 5) | flags4_bits(self.objwin_bg_enabled, 8)
            | flag_bits(self.objwin_obj_enabled, 12) | flag_bits(self.objwin_color_special, 13)) as u16
    }
}

impl Default for WinOut {
    fn default() -> (r: WinOut)
        ensures
            r == WinOut::decode(0),
    {
        let r = WinOut {
            outside_bg_enabled: get_flags4(0, 0),
            outside_obj_enabled: test_bit(0, 4),
            outside_color_special: test_bit(0, 5),
            objwin_bg_enabled: get_flags4(0, 8),
            objwin_obj_enabled: test_bit(0, 12),
            objwin_color_special: test_bit(0, 13),
        };
        r
    }
}

/// Blend control register.
#[derive(Debug, Clone, Copy)]
pub struct BldCnt {
    pub bg_first_target_pix: [bool; 4],
    pub obj_first_target_pix: bool,
    pub bd_first_target_pix: bool,
    pub effect: i32,
    pub bg_second_target_pix: [bool; 4],
    pub obj_second_target_pix: bool,
    pub bd_second_target_pix: bool,
}

impl BldCnt {
    /// The register as a written halfword sets it.
    pub open spec fn decode(halfword: u16) -> BldCnt {
        let w = halfword as u32;
        BldCnt {
            bg_first_target_pix: flags4(w, 0),
            obj_first_target_pix: flag(w, 4),
            bd_first_target_pix: flag(w, 5),
            effect: field(w, 6, 3) as i32,
            bg_second_target_pix: flags4(w, 8),
            obj_second_target_pix: flag(w, 12),
            bd_second_target_pix: flag(w, 13),
        }
    }

    /// The halfword that a read of the register returns.
    pub open spec fn encode(self) -> u16 {
        (flags4_bits(self.bg_first_target_pix, 0) | flag_bits(self.obj_first_target_pix, 4)
            | flag_bits(self.bd_first_target_pix, 5) | field_bits(self.effect as u32, 6, 3)
            | flags4_bits(self.bg_second_target_pix, 8) | flag_bits(self.obj_second_target_pix, 12)
            | flag_bits(self.bd_second_target_pix, 13)) as u16
    }
}

impl Default for BldCnt {
    fn default() -> (r: BldCnt)
        ensures
            r == BldCnt::decode(0),
    {
        let r = BldCnt {
            bg_first_target_pix: get_flags4(0, 0),
            obj_first_target_pix: test_bit(0, 4),
            bd_first_target_pix: test_bit(0, 5),
            effect: get_field(0, 6, 3) as i32,
            bg_second_target_pix: get_flags4(0, 8),
            obj_second_target_pix: test_bit(0, 12),
            bd_second_target_pix: test_bit(0, 13),
        };
        r
    }
}

/// The blend factors of a written halfword, each clamped to 16, as the
/// register holds them.
pub open spec fn blend_factors(halfword: u16) -> u16 {
    let w = halfword as u32;
    (clamp_factor(field(w, 0, 0x1F)) | (clamp_factor(field(w, 8, 0x1F)) << 8)) as u16
}

/// The brightness factor of a written byte, clamped to 16.
pub open spec fn brightness_factor(byte: u8) -> u8 {
    clamp_factor(field(byte as u32, 0, 0x1F)) as u8
}

/// The master brightness register as it keeps a written halfword: the mode
/// in bits 14 and 15, and the factor clamped to 16.
pub open spec fn master_brightness(halfword: u16) -> u16 {
    let w = halfword as u32;
    (clamp_factor(field(w, 0, 0x1F)) | (field(w, 14, 3) << 14)) as u16
}

/// A background scroll offset as its nine-bit register keeps it.
pub open spec fn scroll_offset(halfword: u16) -> u16 {
    halfword & 0x1FF
}

/// A display control word read back after it was written keeps every bit but
/// bit 7, which the register does not hold.
pub proof fn lemma_dispcnt_round_trip(before: DispCnt, word: u32)
    ensures
        before.written(word).encode() == word & 0xFFFF_FF7F,
{
    assert(before.written(word).encode() == word & 0xFFFF_FF7F) by (bit_vector);
}


/// A background control word read back after it was written is the word
/// that was written; a write to a background that does not exist leaves
/// every control word as it was.
pub proof fn lemma_bgcnt_round_trip(before: [u16; 4], index: int, halfword: u16)
    requires
        0 <= index < 4,
    ensures
        vstd::array::spec_array_update(before, index, halfword)[index] == halfword,
        forall|other: int|
            0 <= other < 4 && other != index ==> vstd::array::spec_array_update(
                before,
                index,
                halfword,
            )[other] == before[other],
{
}

/// A capture control word read back after it was written keeps the bits
/// that the register holds, with each blend factor clamped to 16; where
/// both factors are within range, these bits read as they were written.
pub proof fn lemma_dispcapcnt_round_trip(word: u32)
    ensures
        DispCapCnt::decode(word).encode() == (word & 0xEF3F_0000) | clamp_factor(
            field(word, 0, 0x1F),
        ) | (clamp_factor(field(word, 8, 0x1F)) << 8),
        field(word, 0, 0x1F) <= 16 && field(word, 8, 0x1F) <= 16 ==> DispCapCnt::decode(
            word,
        ).encode() == word & 0xEF3F_1F1F,
{
    assert(DispCapCnt::decode(word).encode() == (word & 0xEF3F_0000) | clamp_factor(
        field(word, 0, 0x1F),
    ) | (clamp_factor(field(word, 8, 0x1F)) << 8)) by (bit_vector);
    assert(field(word, 0, 0x1F) <= 16 && field(word, 8, 0x1F) <= 16 ==> DispCapCnt::decode(
        word,
    ).encode() == word & 0xEF3F_1F1F) by (bit_vector);
}

/// A window input word read back after it was written keeps its twelve
/// enable bits.
pub proof fn lemma_winin_round_trip(halfword: u16)
    ensures
        WinIn::decode(halfword).encode() == halfword & 0x3F3F,
{
    assert(WinIn::decode(halfword).encode() == halfword & 0x3F3F) by (bit_vector);
}

/// A window output word read back after it was written keeps its twelve
/// enable bits.
pub proof fn lemma_winout_round_trip(halfword: u16)
    ensures
        WinOut::decode(halfword).encode() == halfword & 0x3F3F,
{
    assert(WinOut::decode(halfword).encode() == halfword & 0x3F3F) by (bit_vector);
}

/// A blend control word read back after it was written keeps its fourteen
/// bits.
pub proof fn lemma_bldcnt_round_trip(halfword: u16)
    ensures
        BldCnt::decode(halfword).encode() == halfword & 0x3FFF,
{
    assert(BldCnt::decode(halfword).encode() == halfword & 0x3FFF) by (bit_vector);
}

/// Blend factors that are within range are kept as written; writing the
/// clamped value again changes nothing.
pub proof fn lemma_blend_factors_clamped(halfword: u16)
    ensures
        blend_factors(blend_factors(halfword)) == blend_factors(halfword),
        (halfword & 0x1F) <= 16 && ((halfword >> 8) & 0x1F) <= 16 ==> blend_factors(halfword)
            == halfword & 0x1F1F,
        blend_factors(halfword) & 0x1F <= 16,
        (blend_factors(halfword) >> 8) & 0x1F <= 16,
{
    assert(blend_factors(blend_factors(halfword)) == blend_factors(halfword)) by (bit_vector);
    assert((halfword & 0x1F) <= 16 && ((halfword >> 8) & 0x1F) <= 16 ==> blend_factors(halfword)
        == halfword & 0x1F1F) by (bit_vector);
    assert(blend_factors(halfword) & 0x1F <= 16 && (blend_factors(halfword) >> 8) & 0x1F <= 16)
        by (bit_vector);
}


/// 2D GPU engine.
pub struct Gpu2DEngine {
    /// Back buffer: the composed frame, written one scanline at a time.
    pub framebuffer: Vec<u32>,
    /// Front buffer: what the display shows.
    pub front_framebuffer: Vec<u32>,
    /// The two frontmost pixels of each column of the scanline in work.
    pub line: Vec<PixelStack>,
    /// The sprites of the scanline in work, one word per column, as sprite
    /// evaluation left them: bit 31 marks a sprite pixel, bit 30 a pixel of
    /// the object window, bits 16 and 17 hold the priority, bits 0 to 14 the
    /// colour.
    pub sprite_scanline: Vec<u32>,
    /// What each column of the scanline lets through: bits 0 to 3 the
    /// backgrounds, bit 4 the sprites, bit 5 blending.
    pub window_mask: Vec<u8>,
    pub engine_a: bool,
    /// The scanline that the display is at.
    pub vcount: u32,
    /// Background palette; entry 0 is the backdrop.
    pub palette: Vec<u16>,
    /// Background video memory of this engine.
    pub vram: Vec<u8>,
    /// The memory bank that display mode 2 reads the picture from.
    pub capture: Vec<u16>,
    pub disp_cnt: DispCnt,
    pub disp_capcnt: DispCapCnt,
    pub captured_lines: i32,
    pub bgcnt: [u16; 4],
    pub bghofs: [u16; 4],
    pub bgvofs: [u16; 4],
    pub bg2p: [u16; 4],
    pub bg3p: [u16; 4],
    pub bg2x: u32,
    pub bg2y: u32,
    pub bg3x: u32,
    pub bg3y: u32,
    pub bg2p_internal: [i16; 4],
    pub bg3p_internal: [i16; 4],
    pub bg2x_internal: i32,
    pub bg2y_internal: i32,
    pub bg3x_internal: i32,
    pub bg3y_internal: i32,
    pub win0h: u16,
    pub win1h: u16,
    pub win0v: u16,
    pub win1v: u16,
    pub mosaic: u16,
    pub winin: WinIn,
    pub winout: WinOut,
    pub win0_active: bool,
    pub win1_active: bool,
    pub bldcnt: BldCnt,
    pub bldalpha: u16,
    pub bldy: u8,
    pub master_bright: u16,
    /// The capture control word as it was last written, before any
    /// clamping; zero again from VBLANK on.
    pub disp_capcnt_val: u32,
}

/// The four affine parameters as the renderer reads them: signed.
pub open spec fn signed_params(p: [u16; 4]) -> [i16; 4] {
    [p[0] as i16, p[1] as i16, p[2] as i16, p[3] as i16]
}

impl Gpu2DEngine {
    /// The buffers have the lengths that the renderer relies on.
    pub open spec fn wf(&self) -> bool {
        &&& self.framebuffer.len() == FRAME_PIXELS
        &&& self.front_framebuffer.len() == FRAME_PIXELS
        &&& self.line.len() == PIXELS_PER_LINE
        &&& self.sprite_scanline.len() == PIXELS_PER_LINE
        &&& self.window_mask.len() == PIXELS_PER_LINE
    }

    /// The display is inside the visible part of the frame.
    pub open spec fn in_active_display(&self) -> bool {
        self.vcount < SCANLINES
    }

    /// The engine as it is made: every register clear, every buffer zero,
    /// the working line black, no memory attached.
    pub open spec fn is_new(&self, engine_a: bool) -> bool {
        &&& self.engine_a == engine_a
        &&& self.vcount == 0
        &&& self.framebuffer@ == Seq::new(FRAME_PIXELS as nat, |i: int| 0u32)
        &&& self.front_framebuffer@ == Seq::new(FRAME_PIXELS as nat, |i: int| 0u32)
        &&& self.sprite_scanline@ == Seq::new(PIXELS_PER_LINE as nat, |i: int| 0u32)
        &&& self.window_mask@ == Seq::new(PIXELS_PER_LINE as nat, |i: int| 0u8)
        &&& self.line@ == Seq::new(PIXELS_PER_LINE as nat, |i: int| backdrop_stack(BLACK))
        &&& self.palette@.len() == 0
        &&& self.vram@.len() == 0
        &&& self.capture@.len() == 0
        &&& self.disp_cnt == DispCnt::cleared()
        &&& self.disp_capcnt == DispCapCnt::cleared()
        &&& self.captured_lines == 0
        &&& self.bgcnt@ == seq![0u16, 0u16, 0u16, 0u16]
        &&& self.bghofs@ == seq![0u16, 0u16, 0u16, 0u16]
        &&& self.bgvofs@ == seq![0u16, 0u16, 0u16, 0u16]
        &&& self.bg2p@ == seq![0u16, 0u16, 0u16, 0u16]
        &&& self.bg3p@ == seq![0u16, 0u16, 0u16, 0u16]
        &&& self.bg2p_internal@ == seq![0i16, 0i16, 0i16, 0i16]
        &&& self.bg3p_internal@ == seq![0i16, 0i16, 0i16, 0i16]
        &&& self.bg2x == 0 && self.bg2y == 0 && self.bg3x == 0 && self.bg3y == 0
        &&& self.bg2x_internal == 0 && self.bg2y_internal == 0 && self.bg3x_internal == 0
            && self.bg3y_internal == 0
        &&& self.win0h == 0 && self.win1h == 0 && self.win0v == 0 && self.win1v == 0 && self.mosaic == 0
        &&& self.winin == WinIn::decode(0)
        &&& self.winout == WinOut::decode(0)
        &&& !self.win0_active && !self.win1_active
        &&& self.bldcnt == BldCnt::decode(0)
        &&& self.bldalpha == 0 && self.bldy == 0 && self.master_bright == 0 && self.disp_capcnt_val == 0
    }

    /// Create new 2D engine: every register clear, every buffer zero, no
    /// memory attached.
    pub fn new(engine_a: bool) -> (r: Self)
        ensures
            r.wf(),
            r.is_new(engine_a),
    {
        let backdrop = LayerPixel { color: BLACK, layer: LAYER_BACKDROP, priority: BACKDROP_PRIORITY };
        let r = Gpu2DEngine {
            framebuffer: filled(FRAME_PIXELS, 0u32),
            front_framebuffer: filled(FRAME_PIXELS, 0u32),
            line: filled(PIXELS_PER_LINE, PixelStack { top: backdrop, under: backdrop }),
            sprite_scanline: filled(PIXELS_PER_LINE, 0u32),
            window_mask: filled(PIXELS_PER_LINE, 0u8),
            engine_a,
            vcount: 0,
            palette: Vec::new(),
            vram: Vec::new(),
            capture: Vec::new(),
            disp_cnt: DispCnt::default(),
            disp_capcnt: DispCapCnt::default(),
            captured_lines: 0,
            bgcnt: [0u16; 4],
            bghofs: [0u16; 4],
            bgvofs: [0u16; 4],
            bg2p: [0u16; 4],
            bg3p: [0u16; 4],
            bg2x: 0,
            bg2y: 0,
            bg3x: 0,
            bg3y: 0,
            bg2p_internal: [0i16; 4],
            bg3p_internal: [0i16; 4],
            bg2x_internal: 0,
            bg2y_internal: 0,
            bg3x_internal: 0,
            bg3y_internal: 0,
            win0h: 0,
            win1h: 0,
            win0v: 0,
            win1v: 0,
            mosaic: 0,
            winin: WinIn::default(),
            winout: WinOut::default(),
            win0_active: false,
            win1_active: false,
            bldcnt: BldCnt::default(),
            bldalpha: 0,
            bldy: 0,
            master_bright: 0,
            disp_capcnt_val: 0,
        };
        assert(r.line@ =~= Seq::new(PIXELS_PER_LINE as nat, |i: int| backdrop_stack(BLACK)));
        assert(r.bgcnt@ =~= seq![0u16, 0u16, 0u16, 0u16]);
        assert(r.bghofs@ =~= seq![0u16, 0u16, 0u16, 0u16]);
        assert(r.bgvofs@ =~= seq![0u16, 0u16, 0u16, 0u16]);
        assert(r.bg2p@ =~= seq![0u16, 0u16, 0u16, 0u16]);
        assert(r.bg3p@ =~= seq![0u16, 0u16, 0u16, 0u16]);
        assert(r.bg2p_internal@ =~= seq![0i16, 0i16, 0i16, 0i16]);
        assert(r.bg3p_internal@ =~= seq![0i16, 0i16, 0i16, 0i16]);
        r
    }

    /// Tells the engine which scanline the display is at.
    pub fn set_vcount(&mut self, vcount: u32)
        ensures
            *final(self) == (Gpu2DEngine { vcount, ..*old(self) }),
    {
        self.vcount = vcount;
    }

    /// Attaches the background palette.
    pub fn load_palette(&mut self, palette: Vec<u16>)
        ensures
            *final(self) == (Gpu2DEngine { palette, ..*old(self) }),
    {
        self.palette = palette;
    }

    /// Attaches the background video memory.
    pub fn load_vram(&mut self, vram: Vec<u8>)
        ensures
            *final(self) == (Gpu2DEngine { vram, ..*old(self) }),
    {
        self.vram = vram;
    }

    /// Attaches the memory bank that display mode 2 shows.
    pub fn load_capture(&mut self, capture: Vec<u16>)
        ensures
            *final(self) == (Gpu2DEngine { capture, ..*old(self) }),
    {
        self.capture = capture;
    }

    /// Hands over the sprites of the scanline that is drawn next. A line of
    /// another length than the display's is refused and nothing changes.
    pub fn load_sprite_scanline(&mut self, sprites: Vec<u32>) -> (accepted: bool)
        ensures
            accepted == (sprites.len() == PIXELS_PER_LINE),
            accepted ==> *final(self) == (Gpu2DEngine { sprite_scanline: sprites, ..*old(self) }),
            !accepted ==> *final(self) == *old(self),
    {
        if sprites.len() == PIXELS_PER_LINE {
            self.sprite_scanline = sprites;
            true
        } else {
            false
        }
    }

    /// Called at VBLANK start: the renderer's copies of the affine registers
    /// take the values that the CPU wrote, and the record of the capture
    /// word that was last written is cleared.
    pub fn vblank_start(&mut self)
        ensures
            *final(self) == (Gpu2DEngine {
                bg2p_internal: signed_params(old(self).bg2p),
                bg3p_internal: signed_params(old(self).bg3p),
                bg2x_internal: old(self).bg2x as i32,
                bg2y_internal: old(self).bg2y as i32,
                bg3x_internal: old(self).bg3x as i32,
                bg3y_internal: old(self).bg3y as i32,
                disp_capcnt_val: 0,
                ..*old(self)
            }),
    {
        self.bg2p_internal = [
            self.bg2p[0] as i16,
            self.bg2p[1] as i16,
            self.bg2p[2] as i16,
            self.bg2p[3] as i16,
        ];
        self.bg3p_internal = [
            self.bg3p[0] as i16,
            self.bg3p[1] as i16,
            self.bg3p[2] as i16,
            self.bg3p[3] as i16,
        ];
        self.bg2x_internal = self.bg2x as i32;
        self.bg2y_internal = self.bg2y as i32;
        self.bg3x_internal = self.bg3x as i32;
        self.bg3y_internal = self.bg3y as i32;
        self.disp_capcnt_val = 0;
        assert(self.bg2p_internal =~= signed_params(old(self).bg2p));
        assert(self.bg3p_internal =~= signed_params(old(self).bg3p));
    }

    /// Registers getters
    pub fn get_disp_cnt(&self) -> (reg: u32)
        ensures
            reg == self.disp_cnt.encode(),
    {
        let d = &self.disp_cnt;
        d.pack_mode() | d.pack_layers() | d.pack_windows() | d.pack_display() | d.pack_bases()
    }

    pub fn get_bgcnt(&self, index: usize) -> (reg: u16)
        ensures
            reg == if index < 4 { self.bgcnt[index as int] } else { 0 },
    {
        if index < 4 {
            self.bgcnt[index]
        } else {
            0
        }
    }

    pub fn get_bghofs(&self, index: usize) -> (reg: u16)
        ensures
            reg == if index < 4 { self.bghofs[index as int] } else { 0 },
    {
        if index < 4 {
            self.bghofs[index]
        } else {
            0
        }
    }

    pub fn get_bgvofs(&self, index: usize) -> (reg: u16)
        ensures
            reg == if index < 4 { self.bgvofs[index as int] } else { 0 },
    {
        if index < 4 {
            self.bgvofs[index]
        } else {
            0
        }
    }

    pub fn get_win0v(&self) -> (reg: u16)
        ensures
            reg == self.win0v,
    {
        self.win0v
    }

    pub fn get_win1v(&self) -> (reg: u16)
        ensures
            reg == self.win1v,
    {
        self.win1v
    }

    pub fn get_winin(&self) -> (reg: u16)
        ensures
            reg == self.winin.encode(),
    {
        let w = &self.winin;
        (put_flags4(&w.win0_bg_enabled, 0) | put_flag(w.win0_obj_enabled, 4) | put_flag(
            w.win0_color_special,
            5,
        ) | put_flags4(&w.win1_bg_enabled, 8) | put_flag(w.win1_obj_enabled, 12) | put_flag(
            w.win1_color_special,
            13,
        )) as u16
    }

    pub fn get_winout(&self) -> (reg: u16)
        ensures
            reg == self.winout.encode(),
    {
        let w = &self.winout;
        (put_flags4(&w.outside_bg_enabled, 0) | put_flag(w.outside_obj_enabled, 4) | put_flag(
            w.outside_color_special,
            5,
        ) | put_flags4(&w.objwin_bg_enabled, 8) | put_flag(w.objwin_obj_enabled, 12) | put_flag(
            w.objwin_color_special,
            13,
        )) as u16
    }

    pub fn get_bldcnt(&self) -> (reg: u16)
        ensures
            reg == self.bldcnt.encode(),
    {
        let b = &self.bldcnt;
        (put_flags4(&b.bg_first_target_pix, 0) | put_flag(b.obj_first_target_pix, 4) | put_flag(
            b.bd_first_target_pix,
            5,
        ) | put_field(b.effect as u32, 6, 3) | put_flags4(&b.bg_second_target_pix, 8) | put_flag(
            b.obj_second_target_pix,
            12,
        ) | put_flag(b.bd_second_target_pix, 13)) as u16
    }

    pub fn get_bldalpha(&self) -> (reg: u16)
        ensures
            reg == self.bldalpha,
    {
        self.bldalpha
    }

    pub fn get_master_bright(&self) -> (reg: u16)
        ensures
            reg == self.master_bright,
    {
        self.master_bright
    }

    /// Reads the capture control register: the word is rebuilt from the
    /// fields of the register, so that a factor that was clamped reads as
    /// 16.
    pub fn get_disp_capcnt(&self) -> (reg: u32)
        ensures
            reg == self.disp_capcnt.encode(),
    {
        self.disp_capcnt.pack_target() | self.disp_capcnt.pack_source()
    }

    /// Setters for registers
    pub fn set_dispcnt_lo(&mut self, halfword: u16)
        ensures
            *final(self) == (Gpu2DEngine {
                disp_cnt: old(self).disp_cnt.with_low(halfword),
                ..*old(self)
            }),
    {
        let w: u32 = halfword as u32;
        let before = self.disp_cnt;
        self.disp_cnt = DispCnt {
            bg_mode: get_field(w, 0, 7) as i32,
            bg_3d: test_bit(w, 3),
            tile_obj_1d: test_bit(w, 4),
            bitmap_obj_square: test_bit(w, 5),
            bitmap_obj_1d: test_bit(w, 6),
            display_bg0: test_bit(w, 8),
            display_bg1: test_bit(w, 9),
            display_bg2: test_bit(w, 10),
            display_bg3: test_bit(w, 11),
            display_obj: test_bit(w, 12),
            display_win0: test_bit(w, 13),
            display_win1: test_bit(w, 14),
            obj_win_display: test_bit(w, 15),
            ..before
        };
    }

    pub fn set_dispcnt(&mut self, word: u32)
        ensures
            *final(self) == (Gpu2DEngine {
                disp_cnt: old(self).disp_cnt.written(word),
                ..*old(self)
            }),
    {
        self.set_dispcnt_lo((word & 0xFFFF) as u16);
        let low = self.disp_cnt;
        self.disp_cnt = DispCnt {
            display_mode: get_field(word, 16, 3) as i32,
            vram_block: get_field(word, 18, 3) as i32,
            tile_obj_1d_bound: get_field(word, 20, 3) as i32,
            bitmap_obj_1d_bound: test_bit(word, 22),
            hblank_obj_processing: test_bit(word, 23),
            char_base: get_field(word, 24, 7) as i32,
            screen_base: get_field(word, 27, 7) as i32,
            bg_extended_palette: test_bit(word, 30),
            obj_extended_palette: test_bit(word, 31),
            ..low
        };
    }

    pub fn set_bgcnt(&mut self, halfword: u16, index: usize)
        ensures
            index < 4 ==> *final(self) == (Gpu2DEngine {
                bgcnt: vstd::array::spec_array_update(old(self).bgcnt, index as int, halfword),
                ..*old(self)
            }),
            index >= 4 ==> *final(self) == *old(self),
    {
        if index < 4 {
            self.bgcnt[index] = halfword;
        }
    }

    pub fn set_bghofs(&mut self, halfword: u16, index: usize)
        ensures
            index < 4 ==> *final(self) == (Gpu2DEngine {
                bghofs: vstd::array::spec_array_update(
                    old(self).bghofs,
                    index as int,
                    scroll_offset(halfword),
                ),
                ..*old(self)
            }),
            index >= 4 ==> *final(self) == *old(self),
    {
        if index < 4 {
            self.bghofs[index] = halfword & 0x1FF;
        }
    }

    pub fn set_bgvofs(&mut self, halfword: u16, index: usize)
        ensures
            index < 4 ==> *final(self) == (Gpu2DEngine {
                bgvofs: vstd::array::spec_array_update(
                    old(self).bgvofs,
                    index as int,
                    scroll_offset(halfword),
                ),
                ..*old(self)
            }),
            index >= 4 ==> *final(self) == *old(self),
    {
        if index < 4 {
            self.bgvofs[index] = halfword & 0x1FF;
        }
    }

    pub fn set_bg2p(&mut self, halfword: u16, index: usize)
        ensures
            index < 4 ==> *final(self) == (Gpu2DEngine {
                bg2p: vstd::array::spec_array_update(old(self).bg2p, index as int, halfword),
                bg2p_internal: if old(self).in_active_display() {
                    old(self).bg2p_internal
                } else {
                    vstd::array::spec_array_update(
                        old(self).bg2p_internal,
                        index as int,
                        halfword as i16,
                    )
                },
                ..*old(self)
            }),
            index >= 4 ==> *final(self) == *old(self),
    {
        if index < 4 {
            self.bg2p[index] = halfword;
            if self.vcount >= SCANLINES as u32 {
                self.bg2p_internal[index] = halfword as i16;
            }
        }
    }

    pub fn set_bg3p(&mut self, halfword: u16, index: usize)
        ensures
            index < 4 ==> *final(self) == (Gpu2DEngine {
                bg3p: vstd::array::spec_array_update(old(self).bg3p, index as int, halfword),
                bg3p_internal: if old(self).in_active_display() {
                    old(self).bg3p_internal
                } else {
                    vstd::array::spec_array_update(
                        old(self).bg3p_internal,
                        index as int,
                        halfword as i16,
                    )
                },
                ..*old(self)
            }),
            index >= 4 ==> *final(self) == *old(self),
    {
        if index < 4 {
            self.bg3p[index] = halfword;
            if self.vcount >= SCANLINES as u32 {
                self.bg3p_internal[index] = halfword as i16;
            }
        }
    }

    pub fn set_bg2x(&mut self, word: u32)
        ensures
            *final(self) == (Gpu2DEngine {
                bg2x: word,
                bg2x_internal: if old(self).in_active_display() {
                    old(self).bg2x_internal
                } else {
                    word as i32
                },
                ..*old(self)
            }),
    {
        self.bg2x = word;
        if self.vcount >= SCANLINES as u32 {
            self.bg2x_internal = word as i32;
        }
    }

    pub fn set_bg2y(&mut self, word: u32)
        ensures
            *final(self) == (Gpu2DEngine {
                bg2y: word,
                bg2y_internal: if old(self).in_active_display() {
                    old(self).bg2y_internal
                } else {
                    word as i32
                },
                ..*old(self)
            }),
    {
        self.bg2y = word;
        if self.vcount >= SCANLINES as u32 {
            self.bg2y_internal = word as i32;
        }
    }

    pub fn set_bg3x(&mut self, word: u32)
        ensures
            *final(self) == (Gpu2DEngine {
                bg3x: word,
                bg3x_internal: if old(self).in_active_display() {
                    old(self).bg3x_internal
                } else {
                    word as i32
                },
                ..*old(self)
            }),
    {
        self.bg3x = word;
        if self.vcount >= SCANLINES as u32 {
            self.bg3x_internal = word as i32;
        }
    }

    pub fn set_bg3y(&mut self, word: u32)
        ensures
            *final(self) == (Gpu2DEngine {
                bg3y: word,
                bg3y_internal: if old(self).in_active_display() {
                    old(self).bg3y_internal
                } else {
                    word as i32
                },
                ..*old(self)
            }),
    {
        self.bg3y = word;
        if self.vcount >= SCANLINES as u32 {
            self.bg3y_internal = word as i32;
        }
    }

    pub fn set_win0h(&mut self, halfword: u16)
        ensures
            *final(self) == (Gpu2DEngine { win0h: halfword, ..*old(self) }),
    {
        self.win0h = halfword;
    }

    pub fn set_win1h(&mut self, halfword: u16)
        ensures
            *final(self) == (Gpu2DEngine { win1h: halfword, ..*old(self) }),
    {
        self.win1h = halfword;
    }

    pub fn set_win0v(&mut self, halfword: u16)
        ensures
            *final(self) == (Gpu2DEngine { win0v: halfword, ..*old(self) }),
    {
        self.win0v = halfword;
    }

    pub fn set_win1v(&mut self, halfword: u16)
        ensures
            *final(self) == (Gpu2DEngine { win1v: halfword, ..*old(self) }),
    {
        self.win1v = halfword;
    }

    pub fn set_mosaic(&mut self, halfword: u16)
        ensures
            *final(self) == (Gpu2DEngine { mosaic: halfword, ..*old(self) }),
    {
        self.mosaic = halfword;
    }

    pub fn set_winin(&mut self, halfword: u16)
        ensures
            *final(self) == (Gpu2DEngine { winin: WinIn::decode(halfword), ..*old(self) }),
    {
        let w: u32 = halfword as u32;
        self.winin = WinIn {
            win0_bg_enabled: get_flags4(w, 0),
            win0_obj_enabled: test_bit(w, 4),
            win0_color_special: test_bit(w, 5),
            win1_bg_enabled: get_flags4(w, 8),
            win1_obj_enabled: test_bit(w, 12),
            win1_color_special: test_bit(w, 13),
        };
    }

    pub fn set_winout(&mut self, halfword: u16)
        ensures
            *final(self) == (Gpu2DEngine { winout: WinOut::decode(halfword), ..*old(self) }),
    {
        let w: u32 = halfword as u32;
        self.winout = WinOut {
            outside_bg_enabled: get_flags4(w, 0),
            outside_obj_enabled: test_bit(w, 4),
            outside_color_special: test_bit(w, 5),
            objwin_bg_enabled: get_flags4(w, 8),
            objwin_obj_enabled: test_bit(w, 12),
            objwin_color_special: test_bit(w, 13),
        };
    }

    pub fn set_bldcnt(&mut self, halfword: u16)
        ensures
            *final(self) == (Gpu2DEngine { bldcnt: BldCnt::decode(halfword), ..*old(self) }),
    {
        let w: u32 = halfword as u32;
        self.bldcnt = BldCnt {
            bg_first_target_pix: get_flags4(w, 0),
            obj_first_target_pix: test_bit(w, 4),
            bd_first_target_pix: test_bit(w, 5),
            effect: get_field(w, 6, 3) as i32,
            bg_second_target_pix: get_flags4(w, 8),
            obj_second_target_pix: test_bit(w, 12),
            bd_second_target_pix: test_bit(w, 13),
        };
    }

    pub fn set_bldalpha(&mut self, halfword: u16)
        ensures
            *final(self) == (Gpu2DEngine { bldalpha: blend_factors(halfword), ..*old(self) }),
    {
        let w: u32 = halfword as u32;
        let eva = clamp_factor_exec(get_field(w, 0, 0x1F));
        let evb = clamp_factor_exec(get_field(w, 8, 0x1F));
        self.bldalpha = (eva | (evb << 8)) as u16;
    }

    pub fn set_bldy(&mut self, byte: u8)
        ensures
            *final(self) == (Gpu2DEngine { bldy: brightness_factor(byte), ..*old(self) }),
    {
        self.bldy = clamp_factor_exec(get_field(byte as u32, 0, 0x1F)) as u8;
    }

    pub fn set_master_bright(&mut self, halfword: u16)
        ensures
            *final(self) == (Gpu2DEngine {
                master_bright: master_brightness(halfword),
                ..*old(self)
            }),
    {
        let w: u32 = halfword as u32;
        let factor = clamp_factor_exec(get_field(w, 0, 0x1F));
        self.master_bright = (factor | (get_field(w, 14, 3) << 14)) as u16;
    }

    /// Writes the capture control register. Only engine A has one; on engine
    /// B the write is ignored.
    pub fn set_disp_capcnt(&mut self, word: u32)
        ensures
            !old(self).engine_a ==> *final(self) == *old(self),
            old(self).engine_a ==> *final(self) == (Gpu2DEngine {
                disp_capcnt: DispCapCnt::decode(word),
                captured_lines: if !old(self).disp_capcnt.enable_busy && flag(word, 31) {
                    -1i32
                } else {
                    old(self).captured_lines
                },
                disp_capcnt_val: word,
                ..*old(self)
            }),
    {
        if !self.engine_a {
            return ;
        }
        let starts = !self.disp_capcnt.enable_busy && test_bit(word, 31);
        self.disp_capcnt = DispCapCnt {
            eva: clamp_factor_exec(get_field(word, 0, 0x1F)) as i32,
            evb: clamp_factor_exec(get_field(word, 8, 0x1F)) as i32,
            vram_write_block: get_field(word, 16, 3) as i32,
            vram_write_offset: get_field(word, 18, 3) as i32,
            capture_size: get_field(word, 20, 3) as i32,
            a_3d_only: test_bit(word, 24),
            b_display_fifo: test_bit(word, 25),
            vram_read_offset: get_field(word, 26, 3) as i32,
            capture_source: get_field(word, 29, 3) as i32,
            enable_busy: test_bit(word, 31),
        };
        if starts {
            self.captured_lines = -1;
        }
        self.disp_capcnt_val = word;
    }
}

impl Default for Gpu2DEngine {
    fn default() -> (r: Gpu2DEngine)
        ensures
            r.wf(),
            r.is_new(true),
    {
        Gpu2DEngine::new(true)
    }
}


/// How a background is drawn in the current background mode.
#[derive(Debug, Clone, Copy, PartialEq, Eq, Structural)]
pub enum BgKind {
    /// Not drawn in this mode.
    Off,
    /// Tiles on a scrolled map.
    Text,
    /// A rotated and scaled bitmap.
    Extended,
    /// The picture of the 3D engine.
    Render3D,
}

/// The part of a window register that one region uses, as a mask: bits 0 to
/// 3 for the backgrounds, bit 4 for the sprites, bit 5 for blending.
pub open spec fn region_mask(bg: [bool; 4], obj: bool, special: bool) -> u8 {
    (flags4_bits(bg, 0) | flag_bits(obj, 4) | flag_bits(special, 5)) as u8
}

fn region_mask_exec(bg: &[bool; 4], obj: bool, special: bool) -> (r: u8)
    ensures
        r == region_mask(*bg, obj, special),
{
    (put_flags4(bg, 0) | put_flag(obj, 4) | put_flag(special, 5)) as u8
}

/// A mask lets through exactly what its region enables.
pub proof fn lemma_region_mask_bits(bg: [bool; 4], obj: bool, special: bool)
    ensures
        flag(region_mask(bg, obj, special) as u32, 0) == bg[0],
        flag(region_mask(bg, obj, special) as u32, 1) == bg[1],
        flag(region_mask(bg, obj, special) as u32, 2) == bg[2],
        flag(region_mask(bg, obj, special) as u32, 3) == bg[3],
        flag(region_mask(bg, obj, special) as u32, 4) == obj,
        flag(region_mask(bg, obj, special) as u32, 5) == special,
{
    let b0 = bg[0];
    let b1 = bg[1];
    let b2 = bg[2];
    let b3 = bg[3];
    let m = (flag_bits(b0, 0) | flag_bits(b1, 1) | flag_bits(b2, 2) | flag_bits(b3, 3) | flag_bits(
        obj,
        4,
    ) | flag_bits(special, 5)) as u8;
    assert(m == region_mask(bg, obj, special));
    assert(flag(m as u32, 0) == b0 && flag(m as u32, 1) == b1 && flag(m as u32, 2) == b2 && flag(
        m as u32,
        3,
    ) == b3 && flag(m as u32, 4) == obj && flag(m as u32, 5) == special) by (bit_vector)
        requires
            m == (flag_bits(b0, 0) | flag_bits(b1, 1) | flag_bits(b2, 2) | flag_bits(b3, 3)
                | flag_bits(obj, 4) | flag_bits(special, 5)) as u8,
    ;
}

/// The side of an extended background, in pixels, for each of its four sizes.
pub open spec fn bitmap_width(size: u32) -> int {
    if size == 0 {
        128
    } else if size == 1 {
        256
    } else {
        512
    }
}

pub open spec fn bitmap_height(size: u32) -> int {
    if size == 0 {
        128
    } else if size == 3 {
        512
    } else {
        256
    }
}

impl Gpu2DEngine {
    /// Where the tile map of background `index` starts in video memory.
    pub open spec fn screen_base(&self, index: int) -> int {
        (if self.engine_a {
            field(self.disp_cnt.screen_base as u32, 0, 7) * 0x10000
        } else {
            0
        }) + field(self.bgcnt[index] as u32, 8, 0x1F) * 0x800
    }

    /// Where the tile pictures of background `index` start in video memory.
    pub open spec fn char_base(&self, index: int) -> int {
        (if self.engine_a {
            field(self.disp_cnt.char_base as u32, 0, 7) * 0x10000
        } else {
            0
        }) + field(self.bgcnt[index] as u32, 2, 0xF) * 0x4000
    }

    /// The priority that background `index` is drawn with.
    pub open spec fn bg_priority(&self, index: int) -> u8 {
        field(self.bgcnt[index] as u32, 0, 3) as u8
    }

    /// The column of the map of text background `index` that shows at
    /// display column `x`.
    pub open spec fn scrolled_x(&self, index: int, x: int) -> int {
        (x + self.bghofs[index]) % (if flag(self.bgcnt[index] as u32, 14) {
            512int
        } else {
            256int
        })
    }

    /// The row of the map of text background `index` that shows on the
    /// current scanline.
    pub open spec fn scrolled_y(&self, index: int) -> int {
        (self.vcount + self.bgvofs[index]) % (if flag(self.bgcnt[index] as u32, 15) {
            512int
        } else {
            256int
        })
    }

    /// The map entry of text background `index` under map position
    /// (`sx`, `sy`). A map wider or taller than 256 pixels is made of
    /// blocks of 32 by 32 entries that follow one another in memory.
    pub open spec fn map_entry(&self, index: int, sx: int, sy: int) -> u32 {
        let wide = flag(self.bgcnt[index] as u32, 14);
        let block = (if sx >= 256 {
            1int
        } else {
            0int
        }) + (if sy >= 256 {
            if wide {
                2int
            } else {
                1int
            }
        } else {
            0int
        });
        half_at(
            self.vram@,
            self.screen_base(index) + block * 0x800 + (((sy % 256) / 8) * 32 + (sx % 256) / 8) * 2,
        )
    }

    /// What the tile of map entry `entry` shows at map position (`sx`,
    /// `sy`): nothing where the tile's colour number is zero.
    pub open spec fn tile_pixel(&self, index: int, entry: u32, sx: int, sy: int) -> Option<u32> {
        let tile = field(entry, 0, 0x3FF) as int;
        let px = if flag(entry, 10) {
            7 - sx % 8
        } else {
            sx % 8
        };
        let py = if flag(entry, 11) {
            7 - sy % 8
        } else {
            sy % 8
        };
        if flag(self.bgcnt[index] as u32, 7) {
            let number = byte_at(self.vram@, self.char_base(index) + tile * 64 + py * 8 + px);
            if number == 0 {
                None
            } else {
                Some(argb(palette_at(self.palette@, number as int)))
            }
        } else {
            let pair = byte_at(self.vram@, self.char_base(index) + tile * 32 + py * 4 + px / 2) as u32;
            let number = if px % 2 == 1 {
                field(pair, 4, 0xF)
            } else {
                field(pair, 0, 0xF)
            };
            if number == 0 {
                None
            } else {
                Some(argb(palette_at(self.palette@, field(entry, 12, 0xF) * 16 + number)))
            }
        }
    }

    /// What text background `index` shows at column `x` of the current
    /// scanline.
    pub open spec fn text_pixel(&self, index: int, x: int) -> Option<u32> {
        let sx = self.scrolled_x(index, x);
        let sy = self.scrolled_y(index);
        self.tile_pixel(index, self.map_entry(index, sx, sy), sx, sy)
    }

    /// The reference point of extended background `index`, as the renderer
    /// holds it for the current scanline, and the two parameters that move
    /// it along a scanline: (x, y, dx, dy).
    pub open spec fn affine_line(&self, index: int) -> (int, int, int, int) {
        if index == 2 {
            (
                self.bg2x_internal as int,
                self.bg2y_internal as int,
                self.bg2p_internal[0] as int,
                self.bg2p_internal[2] as int,
            )
        } else {
            (
                self.bg3x_internal as int,
                self.bg3y_internal as int,
                self.bg3p_internal[0] as int,
                self.bg3p_internal[2] as int,
            )
        }
    }

    /// What extended background `index` (2 or 3) shows at column `x`: the
    /// pixel of its bitmap that the reference point, moved `x` steps, lies
    /// on. The reference point counts 256ths of a pixel. Outside the bitmap
    /// nothing is shown, unless the background wraps around.
    pub open spec fn affine_pixel(&self, index: int, x: int) -> Option<u32> {
        let cnt = self.bgcnt[index] as u32;
        let w = bitmap_width(field(cnt, 14, 3));
        let h = bitmap_height(field(cnt, 14, 3));
        let (rx, ry, dx, dy) = self.affine_line(index);
        let px = (rx + dx * x) / 256;
        let py = (ry + dy * x) / 256;
        let tx = if flag(cnt, 13) {
            px % w
        } else {
            px
        };
        let ty = if flag(cnt, 13) {
            py % h
        } else {
            py
        };
        if 0 <= tx < w && 0 <= ty < h {
            let number = byte_at(self.vram@, field(cnt, 8, 0x1F) * 0x4000 + ty * w + tx);
            if number == 0 {
                None
            } else {
                Some(argb(palette_at(self.palette@, number as int)))
            }
        } else {
            None
        }
    }

    /// What an extended background shows at column `x`. Backgrounds 0 and 1
    /// have no affine registers and are drawn as text.
    pub open spec fn ext_pixel(&self, index: int, x: int) -> Option<u32> {
        if index >= 2 {
            self.affine_pixel(index, x)
        } else {
            self.text_pixel(index, x)
        }
    }

    /// What the sprites show at column `x`.
    pub open spec fn sprite_pixel(&self, x: int) -> Option<u32> {
        let word = self.sprite_scanline@[x];
        if flag(word, 31) {
            Some(argb((word & 0x7FFF) as u16))
        } else {
            None
        }
    }

    /// The priority of the sprite pixel at column `x`.
    pub open spec fn sprite_priority(&self, x: int) -> u8 {
        field(self.sprite_scanline@[x], 16, 3) as u8
    }

    /// Some window is switched on.
    pub open spec fn windows_on(&self) -> bool {
        self.disp_cnt.display_win0 || self.disp_cnt.display_win1 || self.disp_cnt.obj_win_display
    }

    /// What column `x` of the current scanline lets through. With no window
    /// switched on everything passes. Otherwise the first region that the
    /// column lies in decides: window 0, window 1, the object window, and
    /// the outside last.
    pub open spec fn window_value(&self, x: int) -> u8 {
        if !self.windows_on() {
            0xFFu8
        } else if self.disp_cnt.display_win0 && inside_window(self.win0v, self.vcount)
            && inside_window(self.win0h, x as u32) {
            region_mask(
                self.winin.win0_bg_enabled,
                self.winin.win0_obj_enabled,
                self.winin.win0_color_special,
            )
        } else if self.disp_cnt.display_win1 && inside_window(self.win1v, self.vcount)
            && inside_window(self.win1h, x as u32) {
            region_mask(
                self.winin.win1_bg_enabled,
                self.winin.win1_obj_enabled,
                self.winin.win1_color_special,
            )
        } else if self.disp_cnt.obj_win_display && flag(self.sprite_scanline@[x], 30) {
            region_mask(
                self.winout.objwin_bg_enabled,
                self.winout.objwin_obj_enabled,
                self.winout.objwin_color_special,
            )
        } else {
            region_mask(
                self.winout.outside_bg_enabled,
                self.winout.outside_obj_enabled,
                self.winout.outside_color_special,
            )
        }
    }

    /// How background `index` is drawn in the current mode, if its display
    /// bit is set.
    pub open spec fn bg_kind(&self, index: int) -> BgKind {
        let mode = self.disp_cnt.bg_mode;
        if index == 0 {
            if !self.disp_cnt.display_bg0 {
                BgKind::Off
            } else if self.engine_a && self.disp_cnt.bg_3d {
                BgKind::Render3D
            } else {
                BgKind::Text
            }
        } else if index == 1 {
            if self.disp_cnt.display_bg1 {
                BgKind::Text
            } else {
                BgKind::Off
            }
        } else if index == 2 {
            if !self.disp_cnt.display_bg2 {
                BgKind::Off
            } else if mode == 0 || mode == 1 || mode == 3 {
                BgKind::Text
            } else if mode == 5 {
                BgKind::Extended
            } else {
                BgKind::Off
            }
        } else {
            if !self.disp_cnt.display_bg3 {
                BgKind::Off
            } else if mode == 0 {
                BgKind::Text
            } else if mode == 3 || mode == 4 || mode == 5 {
                BgKind::Extended
            } else {
                BgKind::Off
            }
        }
    }

    /// Only the working line and nothing else differs between `self` and
    /// `before`.
    pub open spec fn same_but_line(&self, before: &Gpu2DEngine) -> bool {
        *self == (Gpu2DEngine { line: self.line, ..*before })
    }

    fn screen_base_exec(&self, index: usize) -> (r: usize)
        requires
            index < 4,
        ensures
            r == self.screen_base(index as int),
            r <= 7 * 0x10000 + 0x1F * 0x800,
    {
        let high: usize = if self.engine_a {
            get_field(self.disp_cnt.screen_base as u32, 0, 7) as usize * 0x10000
        } else {
            0
        };
        high + get_field(self.bgcnt[index] as u32, 8, 0x1F) as usize * 0x800
    }

    fn char_base_exec(&self, index: usize) -> (r: usize)
        requires
            index < 4,
        ensures
            r == self.char_base(index as int),
            r <= 7 * 0x10000 + 0xF * 0x4000,
    {
        let high: usize = if self.engine_a {
            get_field(self.disp_cnt.char_base as u32, 0, 7) as usize * 0x10000
        } else {
            0
        };
        high + get_field(self.bgcnt[index] as u32, 2, 0xF) as usize * 0x4000
    }

    fn map_entry_exec(&self, index: usize, sx: usize, sy: usize) -> (r: u32)
        requires
            index < 4,
            sx < 512,
            sy < 512,
        ensures
            r == self.map_entry(index as int, sx as int, sy as int),
    {
        let wide = test_bit(self.bgcnt[index] as u32, 14);
        let right: usize = if sx >= 256 {
            1
        } else {
            0
        };
        let below: usize = if sy >= 256 {
            if wide {
                2
            } else {
                1
            }
        } else {
            0
        };
        let block = right + below;
        read_half(
            &self.vram,
            self.screen_base_exec(index) + block * 0x800 + (((sy % 256) / 8) * 32 + (sx % 256) / 8)
                * 2,
        )
    }

    fn tile_pixel_exec(&self, index: usize, entry: u32, sx: usize, sy: usize) -> (r: Option<u32>)
        requires
            index < 4,
            sx < 512,
            sy < 512,
        ensures
            r == self.tile_pixel(index as int, entry, sx as int, sy as int),
    {
        let tile = get_field(entry, 0, 0x3FF) as usize;
        let px: usize = if test_bit(entry, 10) {
            7 - sx % 8
        } else {
            sx % 8
        };
        let py: usize = if test_bit(entry, 11) {
            7 - sy % 8
        } else {
            sy % 8
        };
        let base = self.char_base_exec(index);
        if test_bit(self.bgcnt[index] as u32, 7) {
            let number = read_byte(&self.vram, base + tile * 64 + py * 8 + px);
            if number == 0 {
                None
            } else {
                Some(to_argb(read_palette(&self.palette, number as usize)))
            }
        } else {
            let pair = read_byte(&self.vram, base + tile * 32 + py * 4 + px / 2) as u32;
            let number = if px % 2 == 1 {
                get_field(pair, 4, 0xF)
            } else {
                get_field(pair, 0, 0xF)
            };
            if number == 0 {
                None
            } else {
                Some(
                    to_argb(
                        read_palette(
                            &self.palette,
                            get_field(entry, 12, 0xF) as usize * 16 + number as usize,
                        ),
                    ),
                )
            }
        }
    }

    fn text_pixel_exec(&self, index: usize, x: usize) -> (r: Option<u32>)
        requires
            index < 4,
            x < PIXELS_PER_LINE,
            self.vcount < SCANLINES,
        ensures
            r == self.text_pixel(index as int, x as int),
    {
        let cnt = self.bgcnt[index] as u32;
        let width: usize = if test_bit(cnt, 14) {
            512
        } else {
            256
        };
        let height: usize = if test_bit(cnt, 15) {
            512
        } else {
            256
        };
        let sx = (x + self.bghofs[index] as usize) % width;
        let sy = (self.vcount as usize + self.bgvofs[index] as usize) % height;
        self.tile_pixel_exec(index, self.map_entry_exec(index, sx, sy), sx, sy)
    }

    fn affine_pixel_exec(&self, index: usize, x: usize) -> (r: Option<u32>)
        requires
            2 <= index < 4,
            x < PIXELS_PER_LINE,
        ensures
            r == self.affine_pixel(index as int, x as int),
    {
        let cnt = self.bgcnt[index] as u32;
        let size = get_field(cnt, 14, 3);
        let w: i128 = if size == 0 {
            128
        } else if size == 1 {
            256
        } else {
            512
        };
        let h: i128 = if size == 0 {
            128
        } else if size == 3 {
            512
        } else {
            256
        };
        let (rx, ry, dx, dy): (i128, i128, i128, i128) = if index == 2 {
            (
                self.bg2x_internal as i128,
                self.bg2y_internal as i128,
                self.bg2p_internal[0] as i128,
                self.bg2p_internal[2] as i128,
            )
        } else {
            (
                self.bg3x_internal as i128,
                self.bg3y_internal as i128,
                self.bg3p_internal[0] as i128,
                self.bg3p_internal[2] as i128,
            )
        };
        let step = x as i128;
        assert(-0x8000 * 256 <= dx * step <= 0x8000 * 256) by (nonlinear_arith)
            requires
                -0x8000 <= dx <= 0x8000,
                0 <= step < 256,
        ;
        assert(-0x8000 * 256 <= dy * step <= 0x8000 * 256) by (nonlinear_arith)
            requires
                -0x8000 <= dy <= 0x8000,
                0 <= step < 256,
        ;
        let px = floor_div(rx + dx * step, 256);
        let py = floor_div(ry + dy * step, 256);
        let wrap = test_bit(cnt, 13);
        let tx = if wrap {
            floor_mod(px, w)
        } else {
            px
        };
        let ty = if wrap {
            floor_mod(py, h)
        } else {
            py
        };
        if 0 <= tx && tx < w && 0 <= ty && ty < h {
            assert(0 <= ty * w <= 512 * 512) by (nonlinear_arith)
                requires
                    0 <= ty < 512,
                    0 < w <= 512,
            ;
            let number = read_byte(
                &self.vram,
                get_field(cnt, 8, 0x1F) as usize * 0x4000 + (ty * w + tx) as usize,
            );
            if number == 0 {
                None
            } else {
                Some(to_argb(read_palette(&self.palette, number as usize)))
            }
        } else {
            None
        }
    }

    fn window_value_exec(&self, x: usize) -> (r: u8)
        requires
            self.wf(),
            x < PIXELS_PER_LINE,
        ensures
            r == self.window_value(x as int),
    {
        let d = &self.disp_cnt;
        if !(d.display_win0 || d.display_win1 || d.obj_win_display) {
            0xFF
        } else if d.display_win0 && inside_window_exec(self.win0v, self.vcount)
            && inside_window_exec(self.win0h, x as u32) {
            region_mask_exec(
                &self.winin.win0_bg_enabled,
                self.winin.win0_obj_enabled,
                self.winin.win0_color_special,
            )
        } else if d.display_win1 && inside_window_exec(self.win1v, self.vcount)
            && inside_window_exec(self.win1h, x as u32) {
            region_mask_exec(
                &self.winin.win1_bg_enabled,
                self.winin.win1_obj_enabled,
                self.winin.win1_color_special,
            )
        } else if d.obj_win_display && test_bit(self.sprite_scanline[x], 30) {
            region_mask_exec(
                &self.winout.objwin_bg_enabled,
                self.winout.objwin_obj_enabled,
                self.winout.objwin_color_special,
            )
        } else {
            region_mask_exec(
                &self.winout.outside_bg_enabled,
                self.winout.outside_obj_enabled,
                self.winout.outside_color_special,
            )
        }
    }
}


/// A layer's pixel at a column whose mask value is `mask`: hidden where the
/// mask does not let the layer through.
pub open spec fn masked(mask: u8, layer: u8, color: Option<u32>) -> Option<u32> {
    if flag(mask as u32, layer as u32) {
        color
    } else {
        None
    }
}

impl Gpu2DEngine {
    /// The working line after a layer is drawn on it that shows
    /// `colors[x]` at column `x`, as far as the window mask lets it through.
    pub open spec fn painted_line(
        &self,
        colors: Seq<Option<u32>>,
        layer: u8,
        priorities: Seq<u8>,
    ) -> Seq<PixelStack> {
        Seq::new(
            PIXELS_PER_LINE as nat,
            |x: int|
                paint_layer(
                    self.line@[x],
                    masked(self.window_mask@[x], layer, colors[x]),
                    layer,
                    priorities[x],
                ),
        )
    }

    /// Draws one layer on the working line.
    fn paint_line(&mut self, colors: &Vec<Option<u32>>, layer: u8, priorities: &Vec<u8>)
        requires
            old(self).wf(),
            colors.len() == PIXELS_PER_LINE,
            priorities.len() == PIXELS_PER_LINE,
            layer < 8,
        ensures
            final(self).wf(),
            final(self).same_but_line(old(self)),
            final(self).line@ == old(self).painted_line(colors@, layer, priorities@),
    {
        let ghost before = *self;
        let mut x: usize = 0;
        while x < PIXELS_PER_LINE
            invariant
                x <= PIXELS_PER_LINE,
                before.wf(),
                self.wf(),
                self.same_but_line(&before),
                colors.len() == PIXELS_PER_LINE,
                priorities.len() == PIXELS_PER_LINE,
                layer < 8,
                forall|k: int|
                    0 <= k < x ==> self.line@[k] == before.painted_line(
                        colors@,
                        layer,
                        priorities@,
                    )[k],
                forall|k: int| x <= k < PIXELS_PER_LINE ==> self.line@[k] == before.line@[k],
            decreases PIXELS_PER_LINE - x,
        {
            if test_bit(self.window_mask[x] as u32, layer as u32) {
                match colors[x] {
                    Some(c) => {
                        let stack = paint_exec(
                            self.line[x],
                            LayerPixel { color: c, layer, priority: priorities[x] },
                        );
                        self.line[x] = stack;
                    },
                    None => {},
                }
            }
            x = x + 1;
        }
        assert(self.line@ =~= before.painted_line(colors@, layer, priorities@));
    }

    /// Fills the window mask for the current scanline.
    pub fn update_window_mask(&mut self)
        requires
            old(self).wf(),
        ensures
            final(self).wf(),
            *final(self) == (Gpu2DEngine {
                window_mask: final(self).window_mask,
                win0_active: inside_window(old(self).win0v, old(self).vcount),
                win1_active: inside_window(old(self).win1v, old(self).vcount),
                ..*old(self)
            }),
            final(self).window_mask@ == Seq::new(
                PIXELS_PER_LINE as nat,
                |x: int| old(self).window_value(x),
            ),
    {
        let ghost before = *self;
        let mut mask: Vec<u8> = Vec::with_capacity(PIXELS_PER_LINE);
        let mut x: usize = 0;
        while x < PIXELS_PER_LINE
            invariant
                x <= PIXELS_PER_LINE,
                *self == before,
                self.wf(),
                mask.len() == x,
                forall|k: int| 0 <= k < x ==> mask@[k] == before.window_value(k),
            decreases PIXELS_PER_LINE - x,
        {
            let value = self.window_value_exec(x);
            mask.push(value);
            x = x + 1;
        }
        self.win0_active = inside_window_exec(self.win0v, self.vcount);
        self.win1_active = inside_window_exec(self.win1v, self.vcount);
        self.window_mask = mask;
        assert(self.window_mask@ =~= Seq::new(
            PIXELS_PER_LINE as nat,
            |x: int| before.window_value(x),
        ));
    }

    /// Draw static backdrop: every column of the working line shows
    /// palette entry 0 and nothing else.
    pub fn draw_backdrop(&mut self)
        requires
            old(self).wf(),
        ensures
            final(self).wf(),
            final(self).same_but_line(old(self)),
            final(self).line@ == Seq::new(
                PIXELS_PER_LINE as nat,
                |x: int| backdrop_stack(argb(palette_at(old(self).palette@, 0))),
            ),
    {
        let color = to_argb(read_palette(&self.palette, 0));
        let pixel = LayerPixel { color, layer: LAYER_BACKDROP, priority: BACKDROP_PRIORITY };
        self.line = filled(PIXELS_PER_LINE, PixelStack { top: pixel, under: pixel });
        assert(self.line@ =~= Seq::new(
            PIXELS_PER_LINE as nat,
            |x: int| backdrop_stack(argb(palette_at(old(self).palette@, 0))),
        ));
    }

    /// Draw background text layer `index` on the working line, with the
    /// priority of its control register.
    pub fn draw_bg_txt(&mut self, index: usize)
        requires
            old(self).wf(),
            index < 4,
            old(self).vcount < SCANLINES,
        ensures
            final(self).wf(),
            final(self).same_but_line(old(self)),
            final(self).line@ == old(self).painted_line(
                Seq::new(PIXELS_PER_LINE as nat, |x: int| old(self).text_pixel(index as int, x)),
                index as u8,
                Seq::new(PIXELS_PER_LINE as nat, |x: int| old(self).bg_priority(index as int)),
            ),
    {
        let mut colors: Vec<Option<u32>> = Vec::with_capacity(PIXELS_PER_LINE);
        let mut x: usize = 0;
        while x < PIXELS_PER_LINE
            invariant
                x <= PIXELS_PER_LINE,
                index < 4,
                self.vcount < SCANLINES,
                *self == *old(self),
                colors.len() == x,
                forall|k: int| 0 <= k < x ==> colors@[k] == self.text_pixel(index as int, k),
            decreases PIXELS_PER_LINE - x,
        {
            let c = self.text_pixel_exec(index, x);
            colors.push(c);
            x = x + 1;
        }
        let priorities = filled(PIXELS_PER_LINE, get_field(self.bgcnt[index] as u32, 0, 3) as u8);
        assert(colors@ =~= Seq::new(
            PIXELS_PER_LINE as nat,
            |x: int| old(self).text_pixel(index as int, x),
        ));
        assert(priorities@ =~= Seq::new(
            PIXELS_PER_LINE as nat,
            |x: int| old(self).bg_priority(index as int),
        ));
        self.paint_line(&colors, index as u8, &priorities);
    }

    /// Draw extended background `index` (bitmap with rotation and scaling)
    /// on the working line.
    pub fn draw_bg_ext(&mut self, index: usize)
        requires
            old(self).wf(),
            index < 4,
            old(self).vcount < SCANLINES,
        ensures
            final(self).wf(),
            final(self).same_but_line(old(self)),
            final(self).line@ == old(self).painted_line(
                Seq::new(PIXELS_PER_LINE as nat, |x: int| old(self).ext_pixel(index as int, x)),
                index as u8,
                Seq::new(PIXELS_PER_LINE as nat, |x: int| old(self).bg_priority(index as int)),
            ),
    {
        let mut colors: Vec<Option<u32>> = Vec::with_capacity(PIXELS_PER_LINE);
        let mut x: usize = 0;
        while x < PIXELS_PER_LINE
            invariant
                x <= PIXELS_PER_LINE,
                index < 4,
                self.vcount < SCANLINES,
                *self == *old(self),
                colors.len() == x,
                forall|k: int| 0 <= k < x ==> colors@[k] == self.ext_pixel(index as int, k),
            decreases PIXELS_PER_LINE - x,
        {
            let c = if index >= 2 {
                self.affine_pixel_exec(index, x)
            } else {
                self.text_pixel_exec(index, x)
            };
            colors.push(c);
            x = x + 1;
        }
        let priorities = filled(PIXELS_PER_LINE, get_field(self.bgcnt[index] as u32, 0, 3) as u8);
        assert(colors@ =~= Seq::new(
            PIXELS_PER_LINE as nat,
            |x: int| old(self).ext_pixel(index as int, x),
        ));
        assert(priorities@ =~= Seq::new(
            PIXELS_PER_LINE as nat,
            |x: int| old(self).bg_priority(index as int),
        ));
        self.paint_line(&colors, index as u8, &priorities);
    }

    /// Draw rot/scale sprite. Sprites reach the engine as a finished
    /// scanline through `load_sprite_scanline`; the attributes of a single
    /// sprite change nothing here.
    pub fn draw_rotscale_sprite(&mut self, _attributes: &[u16])
        ensures
            *final(self) == *old(self),
    {
    }

    /// Draw sprites for current scanline: each sprite pixel goes on the
    /// working line with its own priority.
    pub fn draw_sprites(&mut self)
        requires
            old(self).wf(),
        ensures
            final(self).wf(),
            final(self).same_but_line(old(self)),
            final(self).line@ == old(self).painted_line(
                Seq::new(PIXELS_PER_LINE as nat, |x: int| old(self).sprite_pixel(x)),
                LAYER_OBJ,
                Seq::new(PIXELS_PER_LINE as nat, |x: int| old(self).sprite_priority(x)),
            ),
    {
        let mut colors: Vec<Option<u32>> = Vec::with_capacity(PIXELS_PER_LINE);
        let mut priorities: Vec<u8> = Vec::with_capacity(PIXELS_PER_LINE);
        let mut x: usize = 0;
        while x < PIXELS_PER_LINE
            invariant
                x <= PIXELS_PER_LINE,
                self.wf(),
                *self == *old(self),
                colors.len() == x,
                priorities.len() == x,
                forall|k: int| 0 <= k < x ==> colors@[k] == self.sprite_pixel(k),
                forall|k: int| 0 <= k < x ==> priorities@[k] == self.sprite_priority(k),
            decreases PIXELS_PER_LINE - x,
        {
            let word = self.sprite_scanline[x];
            let c = if test_bit(word, 31) {
                Some(to_argb((word & 0x7FFF) as u16))
            } else {
                None
            };
            colors.push(c);
            priorities.push(get_field(word, 16, 3) as u8);
            x = x + 1;
        }
        assert(colors@ =~= Seq::new(PIXELS_PER_LINE as nat, |x: int| old(self).sprite_pixel(x)));
        assert(priorities@ =~= Seq::new(
            PIXELS_PER_LINE as nat,
            |x: int| old(self).sprite_priority(x),
        ));
        self.paint_line(&colors, LAYER_OBJ, &priorities);
    }
}


/// An affine reference coordinate moved on by one scanline.
pub open spec fn advanced(reference: i32, step: i16) -> i32 {
    (reference + step) as i32
}

fn advance(reference: i32, step: i16) -> (r: i32)
    ensures
        r == advanced(reference, step),
{
    #[verifier::truncate]
    ((reference as i64 + step as i64) as i32)
}

/// The first index of scanline `line` in a frame buffer.
pub open spec fn line_start(line: u32) -> int {
    line * PIXELS_PER_LINE
}

impl Gpu2DEngine {
    /// What background `index` shows at column `x`, drawn as the current
    /// mode asks; `layer3d` is the scanline of the 3D engine.
    pub open spec fn bg_pixel(&self, layer3d: Seq<Option<u32>>, index: int, x: int) -> Option<u32> {
        match self.bg_kind(index) {
            BgKind::Off => None,
            BgKind::Text => self.text_pixel(index, x),
            BgKind::Extended => self.ext_pixel(index, x),
            BgKind::Render3D => layer3d[x],
        }
    }

    /// What the sprites show at column `x`, if they are displayed at all.
    pub open spec fn obj_pixel(&self, x: int) -> Option<u32> {
        if self.disp_cnt.display_obj {
            self.sprite_pixel(x)
        } else {
            None
        }
    }

    /// Column `x` with background `index` drawn on it, as far as the mask
    /// lets it through.
    pub open spec fn with_bg(
        &self,
        stack: PixelStack,
        layer3d: Seq<Option<u32>>,
        index: int,
        x: int,
    ) -> PixelStack {
        paint_layer(
            stack,
            masked(self.window_value(x), index as u8, self.bg_pixel(layer3d, index, x)),
            index as u8,
            self.bg_priority(index),
        )
    }

    /// The two frontmost pixels of column `x` of the current scanline:
    /// over the backdrop the backgrounds are drawn, then the sprites. Of
    /// two pixels the one of lower priority number is in front; at equal
    /// priority a sprite is in front of a background and a background of
    /// lower number in front of one of higher number.
    pub open spec fn composed(&self, layer3d: Seq<Option<u32>>, x: int) -> PixelStack {
        let s0 = backdrop_stack(argb(palette_at(self.palette@, 0)));
        let s1 = self.with_bg(s0, layer3d, 3, x);
        let s2 = self.with_bg(s1, layer3d, 2, x);
        let s3 = self.with_bg(s2, layer3d, 1, x);
        let s4 = self.with_bg(s3, layer3d, 0, x);
        paint_layer(
            s4,
            masked(self.window_value(x), LAYER_OBJ, self.obj_pixel(x)),
            LAYER_OBJ,
            self.sprite_priority(x),
        )
    }

    /// The layer is a first target of blending.
    pub open spec fn is_first_target(&self, layer: u8) -> bool {
        if layer < 4 {
            self.bldcnt.bg_first_target_pix[layer as int]
        } else if layer == LAYER_OBJ {
            self.bldcnt.obj_first_target_pix
        } else {
            self.bldcnt.bd_first_target_pix
        }
    }

    /// The layer is a second target of blending.
    pub open spec fn is_second_target(&self, layer: u8) -> bool {
        if layer < 4 {
            self.bldcnt.bg_second_target_pix[layer as int]
        } else if layer == LAYER_OBJ {
            self.bldcnt.obj_second_target_pix
        } else {
            self.bldcnt.bd_second_target_pix
        }
    }

    /// The factor of the first target in alpha blending, at most 16.
    pub open spec fn eva(&self) -> u32 {
        clamp_factor(field(self.bldalpha as u32, 0, 0x1F))
    }

    /// The factor of the second target in alpha blending, at most 16.
    pub open spec fn evb(&self) -> u32 {
        clamp_factor(field(self.bldalpha as u32, 8, 0x1F))
    }

    /// The factor of the brightness effects, at most 16.
    pub open spec fn evy(&self) -> u32 {
        clamp_factor(field(self.bldy as u32, 0, 0x1F))
    }

    /// The colour that a column shows once the blend effect is applied.
    /// The effect applies where the mask allows blending and the front
    /// pixel is a first target; alpha blending also needs the pixel behind
    /// it to be a second target.
    pub open spec fn shown(&self, stack: PixelStack, mask: u8) -> u32 {
        let effect = self.bldcnt.effect;
        if !flag(mask as u32, 5) || !self.is_first_target(stack.top.layer) {
            stack.top.color
        } else if effect == 1 {
            if self.is_second_target(stack.under.layer) {
                blend_alpha(stack.top.color, stack.under.color, self.eva(), self.evb())
            } else {
                stack.top.color
            }
        } else if effect == 2 {
            blend_brighten(stack.top.color, self.evy())
        } else if effect == 3 {
            blend_darken(stack.top.color, self.evy())
        } else {
            stack.top.color
        }
    }

    /// What the display shows at column `x` of the current scanline, where
    /// the compositor has produced `color`: in mode 0 the blank colour, in
    /// mode 1 the composed colour, in mode 2 the pixel of the capture bank,
    /// in mode 3 black.
    pub open spec fn displayed(&self, color: u32, x: int) -> u32 {
        let mode = self.disp_cnt.display_mode;
        if mode == 0 {
            BLANK_COLOR
        } else if mode == 1 {
            color
        } else if mode == 2 {
            argb(palette_at(self.capture@, line_start(self.vcount) + x))
        } else {
            BLACK
        }
    }

    /// Everything that the pixels of a scanline are computed from is the
    /// same in both engines.
    pub open spec fn same_inputs(&self, other: &Gpu2DEngine) -> bool {
        &&& self.engine_a == other.engine_a
        &&& self.vcount == other.vcount
        &&& self.palette == other.palette
        &&& self.vram == other.vram
        &&& self.capture == other.capture
        &&& self.sprite_scanline == other.sprite_scanline
        &&& self.disp_cnt == other.disp_cnt
        &&& self.bgcnt == other.bgcnt
        &&& self.bghofs == other.bghofs
        &&& self.bgvofs == other.bgvofs
        &&& self.bg2p_internal == other.bg2p_internal
        &&& self.bg3p_internal == other.bg3p_internal
        &&& self.bg2x_internal == other.bg2x_internal
        &&& self.bg2y_internal == other.bg2y_internal
        &&& self.bg3x_internal == other.bg3x_internal
        &&& self.bg3y_internal == other.bg3y_internal
        &&& self.win0h == other.win0h
        &&& self.win1h == other.win1h
        &&& self.win0v == other.win0v
        &&& self.win1v == other.win1v
        &&& self.winin == other.winin
        &&& self.winout == other.winout
        &&& self.bldcnt == other.bldcnt
        &&& self.bldalpha == other.bldalpha
        &&& self.bldy == other.bldy
    }
}

/// Two engines with the same inputs show the same text pixels.
pub proof fn lemma_same_text_pixel(a: &Gpu2DEngine, b: &Gpu2DEngine, index: int, x: int)
    requires
        a.same_inputs(b),
    ensures
        a.text_pixel(index, x) == b.text_pixel(index, x),
        a.bg_priority(index) == b.bg_priority(index),
{
    let sx = a.scrolled_x(index, x);
    let sy = a.scrolled_y(index);
    assert(sx == b.scrolled_x(index, x));
    assert(sy == b.scrolled_y(index));
    assert(a.screen_base(index) == b.screen_base(index));
    assert(a.char_base(index) == b.char_base(index));
    let entry = a.map_entry(index, sx, sy);
    assert(entry == b.map_entry(index, sx, sy));
    assert(a.tile_pixel(index, entry, sx, sy) == b.tile_pixel(index, entry, sx, sy));
}

/// Two engines with the same inputs show the same extended pixels.
pub proof fn lemma_same_ext_pixel(a: &Gpu2DEngine, b: &Gpu2DEngine, index: int, x: int)
    requires
        a.same_inputs(b),
    ensures
        a.ext_pixel(index, x) == b.ext_pixel(index, x),
{
    lemma_same_text_pixel(a, b, index, x);
    assert(a.affine_line(index) == b.affine_line(index));
    assert(a.affine_pixel(index, x) == b.affine_pixel(index, x));
}

/// Two engines with the same inputs show the same background pixels.
pub proof fn lemma_same_bg_pixel(
    a: &Gpu2DEngine,
    b: &Gpu2DEngine,
    layer3d: Seq<Option<u32>>,
    index: int,
    x: int,
)
    requires
        a.same_inputs(b),
    ensures
        a.bg_pixel(layer3d, index, x) == b.bg_pixel(layer3d, index, x),
        a.bg_priority(index) == b.bg_priority(index),
{
    lemma_same_text_pixel(a, b, index, x);
    lemma_same_ext_pixel(a, b, index, x);
    assert(a.bg_kind(index) == b.bg_kind(index));
}

/// Two engines with the same inputs have the same window mask.
pub proof fn lemma_same_window_value(a: &Gpu2DEngine, b: &Gpu2DEngine, x: int)
    requires
        a.same_inputs(b),
    ensures
        a.window_value(x) == b.window_value(x),
        a.sprite_pixel(x) == b.sprite_pixel(x),
        a.obj_pixel(x) == b.obj_pixel(x),
        a.sprite_priority(x) == b.sprite_priority(x),
{
}

/// Two engines with the same inputs blend and display alike.
pub proof fn lemma_same_inputs_same_output(
    a: &Gpu2DEngine,
    b: &Gpu2DEngine,
    stack: PixelStack,
    mask: u8,
    color: u32,
    x: int,
)
    requires
        a.same_inputs(b),
    ensures
        a.shown(stack, mask) == b.shown(stack, mask),
        a.displayed(color, x) == b.displayed(color, x),
{
}

/// Of two backgrounds with the same priority that both show an opaque
/// pixel at a column, the one with the higher number is never in front.
pub proof fn lemma_lower_background_wins(
    e: &Gpu2DEngine,
    layer3d: Seq<Option<u32>>,
    x: int,
    i: int,
    j: int,
)
    requires
        0 <= i < j < 4,
        e.bg_priority(i) == e.bg_priority(j),
        masked(e.window_value(x), i as u8, e.bg_pixel(layer3d, i, x)) is Some,
        masked(e.window_value(x), j as u8, e.bg_pixel(layer3d, j, x)) is Some,
    ensures
        e.composed(layer3d, x).top.layer != j,
{
}


impl Gpu2DEngine {
    fn bg_kind_exec(&self, index: usize) -> (r: BgKind)
        requires
            index < 4,
        ensures
            r == self.bg_kind(index as int),
    {
        let mode = self.disp_cnt.bg_mode;
        if index == 0 {
            if !self.disp_cnt.display_bg0 {
                BgKind::Off
            } else if self.engine_a && self.disp_cnt.bg_3d {
                BgKind::Render3D
            } else {
                BgKind::Text
            }
        } else if index == 1 {
            if self.disp_cnt.display_bg1 {
                BgKind::Text
            } else {
                BgKind::Off
            }
        } else if index == 2 {
            if !self.disp_cnt.display_bg2 {
                BgKind::Off
            } else if mode == 0 || mode == 1 || mode == 3 {
                BgKind::Text
            } else if mode == 5 {
                BgKind::Extended
            } else {
                BgKind::Off
            }
        } else {
            if !self.disp_cnt.display_bg3 {
                BgKind::Off
            } else if mode == 0 {
                BgKind::Text
            } else if mode == 3 || mode == 4 || mode == 5 {
                BgKind::Extended
            } else {
                BgKind::Off
            }
        }
    }

    /// The working line after background `index` is drawn on it as the
    /// current mode asks.
    pub open spec fn with_bg_line(&self, layer3d: Seq<Option<u32>>, index: int) -> Seq<PixelStack> {
        self.painted_line(
            Seq::new(PIXELS_PER_LINE as nat, |x: int| self.bg_pixel(layer3d, index, x)),
            index as u8,
            Seq::new(PIXELS_PER_LINE as nat, |x: int| self.bg_priority(index)),
        )
    }

    /// Draws the scanline of the 3D engine on the working line as
    /// background 0.
    pub fn draw_bg_3d(&mut self, layer3d: &Vec<Option<u32>>)
        requires
            old(self).wf(),
            layer3d.len() == PIXELS_PER_LINE,
        ensures
            final(self).wf(),
            final(self).same_but_line(old(self)),
            final(self).line@ == old(self).painted_line(
                layer3d@,
                0,
                Seq::new(PIXELS_PER_LINE as nat, |x: int| old(self).bg_priority(0)),
            ),
    {
        let priorities = filled(PIXELS_PER_LINE, get_field(self.bgcnt[0] as u32, 0, 3) as u8);
        assert(priorities@ =~= Seq::new(
            PIXELS_PER_LINE as nat,
            |x: int| old(self).bg_priority(0),
        ));
        self.paint_line(layer3d, 0, &priorities);
    }

    /// Draws background `index` on the working line as the current mode
    /// asks.
    fn draw_bg(&mut self, index: usize, layer3d: &Vec<Option<u32>>)
        requires
            old(self).wf(),
            index < 4,
            old(self).vcount < SCANLINES,
            layer3d.len() == PIXELS_PER_LINE,
        ensures
            final(self).wf(),
            final(self).same_but_line(old(self)),
            final(self).line@ == old(self).with_bg_line(layer3d@, index as int),
    {
        let ghost goal = self.with_bg_line(layer3d@, index as int);
        match self.bg_kind_exec(index) {
            BgKind::Off => {
                assert(self.line@ =~= goal);
            },
            BgKind::Text => {
                self.draw_bg_txt(index);
                assert(self.line@ =~= goal);
            },
            BgKind::Extended => {
                self.draw_bg_ext(index);
                assert(self.line@ =~= goal);
            },
            BgKind::Render3D => {
                self.draw_bg_3d(layer3d);
                assert(self.line@ =~= goal);
            },
        }
    }

    /// The scanline of the 3D engine, where background 0 shows it.
    fn render_3d_line(&self, gpu3d: &Gpu3D) -> (r: Vec<Option<u32>>)
        requires
            self.vcount < SCANLINES,
        ensures
            r.len() == PIXELS_PER_LINE,
            self.bg_kind(0) == BgKind::Render3D ==> r@ == gpu3d@.raster_line(self.vcount as int),
    {
        if !(self.disp_cnt.display_bg0 && self.engine_a && self.disp_cnt.bg_3d) {
            return filled(PIXELS_PER_LINE, None);
        }
        let mut colors = filled(PIXELS_PER_LINE, 0u32);
        let mut marks = filled(PIXELS_PER_LINE, 0u8);
        gpu3d.render_scanline(self.vcount as usize, &mut colors, &mut marks, 1);
        let mut r: Vec<Option<u32>> = Vec::with_capacity(PIXELS_PER_LINE);
        let mut x: usize = 0;
        while x < PIXELS_PER_LINE
            invariant
                x <= PIXELS_PER_LINE,
                colors.len() == PIXELS_PER_LINE,
                marks.len() == PIXELS_PER_LINE,
                r.len() == x,
                forall|k: int|
                    0 <= k < PIXELS_PER_LINE ==> crate::raster::written(
                        gpu3d@.raster_pixel(self.vcount as int, k),
                        1,
                        (0u32, 0u8),
                        (#[trigger] colors@[k], marks@[k]),
                    ),
                forall|k: int| 0 <= k < x ==> r@[k] == gpu3d@.raster_pixel(self.vcount as int, k),
            decreases PIXELS_PER_LINE - x,
        {
            assert(crate::raster::written(
                gpu3d@.raster_pixel(self.vcount as int, x as int),
                1,
                (0u32, 0u8),
                (colors@[x as int], marks@[x as int]),
            ));
            if marks[x] == 1 {
                r.push(Some(colors[x]));
            } else {
                r.push(None);
            }
            x = x + 1;
        }
        assert(r@ =~= gpu3d@.raster_line(self.vcount as int));
        r
    }
}


impl Gpu2DEngine {
    fn is_first_target_exec(&self, layer: u8) -> (r: bool)
        ensures
            r == self.is_first_target(layer),
    {
        if layer < 4 {
            self.bldcnt.bg_first_target_pix[layer as usize]
        } else if layer == LAYER_OBJ {
            self.bldcnt.obj_first_target_pix
        } else {
            self.bldcnt.bd_first_target_pix
        }
    }

    fn is_second_target_exec(&self, layer: u8) -> (r: bool)
        ensures
            r == self.is_second_target(layer),
    {
        if layer < 4 {
            self.bldcnt.bg_second_target_pix[layer as usize]
        } else if layer == LAYER_OBJ {
            self.bldcnt.obj_second_target_pix
        } else {
            self.bldcnt.bd_second_target_pix
        }
    }

    fn shown_exec(&self, stack: &PixelStack, mask: u8) -> (r: u32)
        ensures
            r == self.shown(*stack, mask),
    {
        let effect = self.bldcnt.effect;
        if !test_bit(mask as u32, 5) || !self.is_first_target_exec(stack.top.layer) {
            stack.top.color
        } else if effect == 1 {
            if self.is_second_target_exec(stack.under.layer) {
                let eva = clamp_factor_exec(get_field(self.bldalpha as u32, 0, 0x1F));
                let evb = clamp_factor_exec(get_field(self.bldalpha as u32, 8, 0x1F));
                blend_alpha_exec(stack.top.color, stack.under.color, eva, evb)
            } else {
                stack.top.color
            }
        } else if effect == 2 {
            blend_brighten_exec(
                stack.top.color,
                clamp_factor_exec(get_field(self.bldy as u32, 0, 0x1F)),
            )
        } else if effect == 3 {
            blend_darken_exec(
                stack.top.color,
                clamp_factor_exec(get_field(self.bldy as u32, 0, 0x1F)),
            )
        } else {
            stack.top.color
        }
    }

    fn displayed_exec(&self, color: u32, x: usize) -> (r: u32)
        requires
            x < PIXELS_PER_LINE,
            self.vcount < SCANLINES,
        ensures
            r == self.displayed(color, x as int),
    {
        let mode = self.disp_cnt.display_mode;
        if mode == 0 {
            BLANK_COLOR
        } else if mode == 1 {
            color
        } else if mode == 2 {
            to_argb(read_palette(&self.capture, self.vcount as usize * PIXELS_PER_LINE + x))
        } else {
            BLACK
        }
    }

    /// The colour that column `x` shows in the back buffer once the
    /// working line is blended.
    pub open spec fn blended(&self, x: int) -> u32 {
        self.shown(self.line@[x], self.window_mask@[x])
    }

    /// Only the two frame buffers differ between `self` and `before`.
    pub open spec fn same_but_frames(&self, before: &Gpu2DEngine) -> bool {
        *self == (Gpu2DEngine {
            framebuffer: self.framebuffer,
            front_framebuffer: self.front_framebuffer,
            ..*before
        })
    }

    /// Blends the working line and writes it to the current scanline of
    /// the back buffer; writes what the display shows to the same
    /// scanline of the front buffer. The other scanlines keep their
    /// pixels.
    fn finish_line(&mut self)
        requires
            old(self).wf(),
            old(self).vcount < SCANLINES,
        ensures
            final(self).wf(),
            final(self).same_but_frames(old(self)),
            forall|x: int|
                0 <= x < PIXELS_PER_LINE ==> #[trigger] final(self).framebuffer@[line_start(
                    old(self).vcount,
                ) + x] == old(self).blended(x),
            forall|x: int|
                0 <= x < PIXELS_PER_LINE ==> #[trigger] final(self).front_framebuffer@[line_start(
                    old(self).vcount,
                ) + x] == old(self).displayed(old(self).blended(x), x),
            forall|i: int|
                0 <= i < FRAME_PIXELS && !(line_start(old(self).vcount) <= i < line_start(
                    old(self).vcount,
                ) + PIXELS_PER_LINE) ==> final(self).framebuffer@[i] == old(self).framebuffer@[i]
                    && final(self).front_framebuffer@[i] == old(self).front_framebuffer@[i],
    {
        let ghost before = *self;
        let base = self.vcount as usize * PIXELS_PER_LINE;
        let mut x: usize = 0;
        while x < PIXELS_PER_LINE
            invariant
                x <= PIXELS_PER_LINE,
                before.wf(),
                self.wf(),
                before.vcount < SCANLINES,
                base == line_start(before.vcount),
                self.same_but_frames(&before),
                forall|k: int|
                    0 <= k < x ==> #[trigger] self.framebuffer@[base + k] == before.blended(k),
                forall|k: int|
                    0 <= k < x ==> #[trigger] self.front_framebuffer@[base + k]
                        == before.displayed(before.blended(k), k),
                forall|i: int|
                    0 <= i < FRAME_PIXELS && !(base <= i < base + x) ==> self.framebuffer@[i]
                        == before.framebuffer@[i] && self.front_framebuffer@[i]
                        == before.front_framebuffer@[i],
            decreases PIXELS_PER_LINE - x,
        {
            let stack = self.line[x];
            let color = self.shown_exec(&stack, self.window_mask[x]);
            let front = self.displayed_exec(color, x);
            proof {
                lemma_same_inputs_same_output(
                    self,
                    &before,
                    stack,
                    before.window_mask@[x as int],
                    color,
                    x as int,
                );
            }
            self.framebuffer[base + x] = color;
            self.front_framebuffer[base + x] = front;
            x = x + 1;
        }
    }

    /// Moves the reference points of the two extended backgrounds on by
    /// one scanline.
    fn advance_affine(&mut self)
        ensures
            *final(self) == (Gpu2DEngine {
                bg2x_internal: advanced(old(self).bg2x_internal, old(self).bg2p_internal[1]),
                bg2y_internal: advanced(old(self).bg2y_internal, old(self).bg2p_internal[3]),
                bg3x_internal: advanced(old(self).bg3x_internal, old(self).bg3p_internal[1]),
                bg3y_internal: advanced(old(self).bg3y_internal, old(self).bg3p_internal[3]),
                ..*old(self)
            }),
    {
        self.bg2x_internal = advance(self.bg2x_internal, self.bg2p_internal[1]);
        self.bg2y_internal = advance(self.bg2y_internal, self.bg2p_internal[3]);
        self.bg3x_internal = advance(self.bg3x_internal, self.bg3p_internal[1]);
        self.bg3y_internal = advance(self.bg3y_internal, self.bg3p_internal[3]);
    }

    /// Get current framebuffer (read-only): copies the front buffer into
    /// `buffer`, as far as the shorter of the two reaches.
    pub fn get_framebuffer(&self, buffer: &mut [u32])
        requires
            self.wf(),
        ensures
            final(buffer)@.len() == old(buffer)@.len(),
            forall|i: int|
                0 <= i < old(buffer)@.len() ==> #[trigger] final(buffer)@[i] == if i
                    < FRAME_PIXELS {
                    self.front_framebuffer@[i]
                } else {
                    old(buffer)@[i]
                },
    {
        let len = if buffer.len() < self.front_framebuffer.len() {
            buffer.len()
        } else {
            self.front_framebuffer.len()
        };
        let mut i: usize = 0;
        while i < len
            invariant
                i <= len,
                len <= buffer@.len(),
                len <= FRAME_PIXELS,
                len == if old(buffer)@.len() < FRAME_PIXELS {
                    old(buffer)@.len()
                } else {
                    FRAME_PIXELS as nat
                },
                self.wf(),
                buffer@.len() == old(buffer)@.len(),
                forall|k: int| 0 <= k < i ==> #[trigger] buffer@[k] == self.front_framebuffer@[k],
                forall|k: int| i <= k < buffer@.len() ==> buffer@[k] == old(buffer)@[k],
            decreases len - i,
        {
            buffer[i] = self.front_framebuffer[i];
            i = i + 1;
        }
    }

    /// Replace framebuffer contents (write-only): copies `buffer` into the
    /// back buffer, as far as the shorter of the two reaches.
    pub fn set_framebuffer(&mut self, buffer: &[u32])
        requires
            old(self).wf(),
        ensures
            final(self).wf(),
            *final(self) == (Gpu2DEngine { framebuffer: final(self).framebuffer, ..*old(self) }),
            forall|i: int|
                0 <= i < FRAME_PIXELS ==> #[trigger] final(self).framebuffer@[i] == if i
                    < buffer@.len() {
                    buffer@[i]
                } else {
                    old(self).framebuffer@[i]
                },
    {
        let len = if buffer.len() < self.framebuffer.len() {
            buffer.len()
        } else {
            self.framebuffer.len()
        };
        let mut i: usize = 0;
        while i < len
            invariant
                i <= len,
                len <= buffer@.len(),
                len <= FRAME_PIXELS,
                len == if buffer@.len() < FRAME_PIXELS {
                    buffer@.len()
                } else {
                    FRAME_PIXELS as nat
                },
                self.wf(),
                *self == (Gpu2DEngine { framebuffer: self.framebuffer, ..*old(self) }),
                forall|k: int| 0 <= k < i ==> #[trigger] self.framebuffer@[k] == buffer@[k],
                forall|k: int|
                    i <= k < FRAME_PIXELS ==> self.framebuffer@[k] == old(self).framebuffer@[k],
            decreases len - i,
        {
            self.framebuffer[i] = buffer[i];
            i = i + 1;
        }
    }
}


/// One background drawn on the working line of an engine `e` gives, at
/// each column, what the composition of the engine `o` says, where `e` has
/// the inputs of `o` and holds its window mask.
proof fn lemma_bg_step(
    e: &Gpu2DEngine,
    o: &Gpu2DEngine,
    drawn: Seq<Option<u32>>,
    layer3d: Seq<Option<u32>>,
    index: int,
    x: int,
)
    requires
        e.wf(),
        e.same_inputs(o),
        0 <= x < PIXELS_PER_LINE,
        0 <= index < 4,
        e.window_mask@[x] == o.window_value(x),
        drawn.len() == PIXELS_PER_LINE,
        o.bg_kind(0) == BgKind::Render3D ==> drawn == layer3d,
    ensures
        e.with_bg_line(drawn, index)[x] == o.with_bg(e.line@[x], layer3d, index, x),
{
    lemma_same_bg_pixel(e, o, drawn, index, x);
    assert(o.bg_pixel(drawn, index, x) == o.bg_pixel(layer3d, index, x));
}

impl Gpu2DEngine {
    /// The engine after a scanline is drawn, but for its buffers: the
    /// window flags tell whether the scanline is inside each window, and
    /// the reference points of the extended backgrounds have moved on.
    pub open spec fn after_scanline(&self, done: &Gpu2DEngine) -> bool {
        *done == (Gpu2DEngine {
            framebuffer: done.framebuffer,
            front_framebuffer: done.front_framebuffer,
            line: done.line,
            window_mask: done.window_mask,
            win0_active: inside_window(self.win0v, self.vcount),
            win1_active: inside_window(self.win1v, self.vcount),
            bg2x_internal: advanced(self.bg2x_internal, self.bg2p_internal[1]),
            bg2y_internal: advanced(self.bg2y_internal, self.bg2p_internal[3]),
            bg3x_internal: advanced(self.bg3x_internal, self.bg3p_internal[1]),
            bg3y_internal: advanced(self.bg3y_internal, self.bg3p_internal[3]),
            ..*self
        })
    }

    /// The colour that the compositor produces at column `x` of the
    /// current scanline.
    pub open spec fn scanline_color(&self, layer3d: Seq<Option<u32>>, x: int) -> u32 {
        self.shown(self.composed(layer3d, x), self.window_value(x))
    }

    /// Draw one scanline composing backgrounds, sprites, windows,
    /// blending. The composed colours go to the current scanline of the
    /// back buffer, and what the display mode selects to the same scanline
    /// of the front buffer; no other scanline changes.
    pub fn draw_scanline(&mut self, gpu3d: &Gpu3D)
        requires
            old(self).wf(),
            old(self).vcount < SCANLINES,
        ensures
            final(self).wf(),
            old(self).after_scanline(final(self)),
            final(self).window_mask@ == Seq::new(
                PIXELS_PER_LINE as nat,
                |x: int| old(self).window_value(x),
            ),
            final(self).line@ == Seq::new(
                PIXELS_PER_LINE as nat,
                |x: int| old(self).composed(gpu3d@.raster_line(old(self).vcount as int), x),
            ),
            forall|x: int|
                0 <= x < PIXELS_PER_LINE ==> #[trigger] final(self).framebuffer@[line_start(
                    old(self).vcount,
                ) + x] == old(self).scanline_color(
                    gpu3d@.raster_line(old(self).vcount as int),
                    x,
                ),
            forall|x: int|
                0 <= x < PIXELS_PER_LINE ==> #[trigger] final(self).front_framebuffer@[line_start(
                    old(self).vcount,
                ) + x] == old(self).displayed(
                    old(self).scanline_color(gpu3d@.raster_line(old(self).vcount as int), x),
                    x,
                ),
            forall|i: int|
                0 <= i < FRAME_PIXELS && !(line_start(old(self).vcount) <= i < line_start(
                    old(self).vcount,
                ) + PIXELS_PER_LINE) ==> final(self).framebuffer@[i] == old(self).framebuffer@[i]
                    && final(self).front_framebuffer@[i] == old(self).front_framebuffer@[i],
            old(self).disp_cnt.display_mode == 0 ==> forall|x: int|
                0 <= x < PIXELS_PER_LINE ==> #[trigger] final(self).front_framebuffer@[line_start(
                    old(self).vcount,
                ) + x] == BLANK_COLOR,
    {
        let ghost o = *self;
        let ghost layer3d = gpu3d@.raster_line(self.vcount as int);
        let drawn = self.render_3d_line(gpu3d);
        self.update_window_mask();
        self.draw_backdrop();
        let ghost e2 = *self;
        self.draw_bg(3, &drawn);
        let ghost e3 = *self;
        self.draw_bg(2, &drawn);
        let ghost e4 = *self;
        self.draw_bg(1, &drawn);
        let ghost e5 = *self;
        self.draw_bg(0, &drawn);
        let ghost e6 = *self;
        if self.disp_cnt.display_obj {
            self.draw_sprites();
        }
        let ghost e7 = *self;
        assert forall|x: int| 0 <= x < PIXELS_PER_LINE implies #[trigger] e7.line@[x] == o.composed(
            layer3d,
            x,
        ) by {
            lemma_bg_step(&e2, &o, drawn@, layer3d, 3, x);
            lemma_bg_step(&e3, &o, drawn@, layer3d, 2, x);
            lemma_bg_step(&e4, &o, drawn@, layer3d, 1, x);
            lemma_bg_step(&e5, &o, drawn@, layer3d, 0, x);
            lemma_same_window_value(&e6, &o, x);
            let s0 = backdrop_stack(argb(palette_at(o.palette@, 0)));
            assert(e2.line@[x] == s0);
            let s1 = o.with_bg(s0, layer3d, 3, x);
            assert(e3.line@[x] == s1);
            let s2 = o.with_bg(s1, layer3d, 2, x);
            assert(e4.line@[x] == s2);
            let s3 = o.with_bg(s2, layer3d, 1, x);
            assert(e5.line@[x] == s3);
            let s4 = o.with_bg(s3, layer3d, 0, x);
            assert(e6.line@[x] == s4);
        }
        assert(e7.line@ =~= Seq::new(PIXELS_PER_LINE as nat, |x: int| o.composed(layer3d, x)));
        self.finish_line();
        proof {
            assert forall|x: int| 0 <= x < PIXELS_PER_LINE implies #[trigger] e7.blended(x)
                == o.scanline_color(layer3d, x) && e7.displayed(e7.blended(x), x) == o.displayed(
                o.scanline_color(layer3d, x),
                x,
            ) by {
                lemma_same_inputs_same_output(
                    &e7,
                    &o,
                    e7.line@[x],
                    e7.window_mask@[x],
                    e7.blended(x),
                    x,
                );
            }
        }
        self.advance_affine();
    }
}


impl Gpu2DEngine {
    /// Background `k` does not stand in front of background `i` at column
    /// `x`: it shows nothing there, or has the higher priority number, or
    /// the same and the higher number of its own.
    pub open spec fn bg_not_in_front(&self, layer3d: Seq<Option<u32>>, x: int, k: int, i: int) -> bool {
        ||| k == i
        ||| masked(self.window_value(x), k as u8, self.bg_pixel(layer3d, k, x)) is None
        ||| self.bg_priority(k) > self.bg_priority(i)
        ||| (self.bg_priority(k) == self.bg_priority(i) && k > i)
    }

    /// No sprite stands in front of background `i` at column `x`: the
    /// sprites show nothing there, or with a higher priority number.
    pub open spec fn obj_not_in_front(&self, x: int, i: int) -> bool {
        ||| masked(self.window_value(x), LAYER_OBJ, self.obj_pixel(x)) is None
        ||| self.sprite_priority(x) > self.bg_priority(i)
    }
}

/// Of two backgrounds with the same priority that both show an opaque
/// pixel at a column, the one with the lower number is shown: where no
/// other layer stands in front of it and no blend effect is chosen, the
/// compositor produces its colour at the column, and display mode 1 shows
/// that colour.
pub proof fn lemma_lower_background_shows(
    e: &Gpu2DEngine,
    layer3d: Seq<Option<u32>>,
    x: int,
    i: int,
    j: int,
    color: u32,
)
    requires
        0 <= i < j < 4,
        e.bg_priority(i) == e.bg_priority(j),
        masked(e.window_value(x), i as u8, e.bg_pixel(layer3d, i, x)) == Some(color),
        masked(e.window_value(x), j as u8, e.bg_pixel(layer3d, j, x)) is Some,
        e.bg_not_in_front(layer3d, x, 0, i),
        e.bg_not_in_front(layer3d, x, 1, i),
        e.bg_not_in_front(layer3d, x, 2, i),
        e.bg_not_in_front(layer3d, x, 3, i),
        e.obj_not_in_front(x, i),
        e.bldcnt.effect == 0,
        e.disp_cnt.display_mode == 1,
    ensures
        e.composed(layer3d, x).top == (LayerPixel {
            color,
            layer: i as u8,
            priority: e.bg_priority(i),
        }),
        e.scanline_color(layer3d, x) == color,
        e.displayed(e.scanline_color(layer3d, x), x) == color,
{
    lemma_field_bound(e.bgcnt[i] as u32, 0, 3);
    lemma_field_bound(e.bgcnt[0] as u32, 0, 3);
    lemma_field_bound(e.bgcnt[1] as u32, 0, 3);
    lemma_field_bound(e.bgcnt[2] as u32, 0, 3);
    lemma_field_bound(e.bgcnt[3] as u32, 0, 3);
}

} // verus!
