use corgi_gpu::compose::{
    blend_alpha_exec, blend_brighten_exec, blend_darken_exec, paint_exec, to_argb, LayerPixel,
    PixelStack, BLANK_COLOR,
};
use corgi_gpu::gpu3d::Gpu3D;
use corgi_gpu::gpueng::Gpu2DEngine;

const RED: u32 = 0xFFF8_0000;
const GREEN: u32 = 0xFF00_F800;
const BLUE: u32 = 0xFF00_00F8;
const WHITE: u32 = 0xFFF8_F8F8;

/// An engine with two palette entries besides the backdrop, and in its
/// video memory one tile full of colour 1 and one full of colour 2, with a
/// map of tile 1 at screen block 1 and a map of tile 2 at screen block 2.
fn engine() -> Gpu2DEngine {
    let mut e = Gpu2DEngine::new(true);
    let mut palette = vec![0u16; 256];
    palette[0] = 0x7C00;
    palette[1] = 0x001F;
    palette[2] = 0x03E0;
    e.load_palette(palette);
    let mut vram = vec![0u8; 0x10000];
    for i in 0..32 {
        vram[0x4000 + 32 + i] = 0x11;
        vram[0x4000 + 64 + i] = 0x22;
    }
    for i in 0..(32 * 32) {
        vram[0x800 + 2 * i] = 1;
        vram[0x1000 + 2 * i] = 2;
    }
    e.load_vram(vram);
    e.set_dispcnt(0x0001_0000);
    e
}

/// Control word of a text background: priority, tile pictures in block 1,
/// and the map at the screen block given.
fn bgcnt(priority: u16, screen_block: u16) -> u16 {
    priority | (1 << 2) | (screen_block << 8)
}

fn line_of(e: &Gpu2DEngine, line: usize) -> Vec<u32> {
    let mut out = vec![0u32; 256 * 192];
    e.get_framebuffer(&mut out);
    out[line * 256..(line + 1) * 256].to_vec()
}

#[test]
fn colour_conversion() {
    assert_eq!(to_argb(0x001F), RED);
    assert_eq!(to_argb(0x03E0), GREEN);
    assert_eq!(to_argb(0x7C00), BLUE);
    assert_eq!(to_argb(0xFFFF), WHITE);
    assert_eq!(to_argb(0x0000), 0xFF00_0000);
}

#[test]
fn blank_display_shows_the_blank_colour_whatever_is_drawn() {
    let g = Gpu3D::new();
    let mut e = engine();
    e.set_bgcnt(bgcnt(0, 1), 0);
    e.set_dispcnt(0x0000_1F00);
    let mut sprites = vec![0u32; 256];
    sprites[5] = 0x8000_7FFF;
    assert!(e.load_sprite_scanline(sprites));
    e.set_vcount(17);
    e.draw_scanline(&g);
    assert!(line_of(&e, 17).iter().all(|&p| p == BLANK_COLOR));
    assert_eq!(BLANK_COLOR, 0xFFF3_F3F3);
    // The back buffer holds the composed line all the same.
    assert_eq!(e.framebuffer[17 * 256], RED);
    assert_eq!(e.framebuffer[17 * 256 + 5], WHITE);
    // No other scanline was touched.
    assert!(line_of(&e, 16).iter().all(|&p| p == 0));
    assert!(line_of(&e, 18).iter().all(|&p| p == 0));
}

#[test]
fn backdrop_shows_where_nothing_is_drawn() {
    let g = Gpu3D::new();
    let mut e = engine();
    e.set_vcount(0);
    e.draw_scanline(&g);
    assert!(line_of(&e, 0).iter().all(|&p| p == BLUE));
    assert_eq!(e.line[0].top.layer, 5);
    assert_eq!(e.line[0].under.layer, 5);
}

#[test]
fn lower_background_wins_at_equal_priority() {
    let g = Gpu3D::new();
    for priority in 0..4 {
        let mut e = engine();
        e.set_bgcnt(bgcnt(priority, 1), 0);
        e.set_bgcnt(bgcnt(priority, 2), 1);
        e.set_dispcnt(0x0001_0300);
        e.set_vcount(3);
        e.draw_scanline(&g);
        assert!(line_of(&e, 3).iter().all(|&p| p == RED));
        assert_eq!(e.line[100].top.layer, 0);
        assert_eq!(e.line[100].under.layer, 1);
        // The other way round the lower number still wins.
        e.set_bgcnt(bgcnt(priority, 2), 0);
        e.set_bgcnt(bgcnt(priority, 1), 1);
        e.draw_scanline(&g);
        assert!(line_of(&e, 3).iter().all(|&p| p == GREEN));
    }
}

#[test]
fn lower_priority_number_is_in_front() {
    let g = Gpu3D::new();
    let mut e = engine();
    e.set_bgcnt(bgcnt(2, 1), 0);
    e.set_bgcnt(bgcnt(1, 2), 1);
    e.set_dispcnt(0x0001_0300);
    e.set_vcount(0);
    e.draw_scanline(&g);
    assert!(line_of(&e, 0).iter().all(|&p| p == GREEN));
    assert_eq!(e.line[0].under.color, RED);
}

#[test]
fn sprite_is_in_front_of_a_background_of_its_priority() {
    let g = Gpu3D::new();
    let mut e = engine();
    e.set_bgcnt(bgcnt(1, 1), 0);
    e.set_dispcnt(0x0001_1100);
    let mut sprites = vec![0u32; 256];
    sprites[10] = 0x8001_7FFF;
    sprites[11] = 0x8002_7FFF;
    sprites[12] = 0x0001_7FFF;
    assert!(e.load_sprite_scanline(sprites));
    assert!(!e.load_sprite_scanline(vec![0; 255]));
    e.set_vcount(0);
    e.draw_scanline(&g);
    let line = line_of(&e, 0);
    assert_eq!(line[9], RED);
    assert_eq!(line[10], WHITE);
    assert_eq!(line[11], RED);
    assert_eq!(e.line[11].under.color, WHITE);
    assert_eq!(e.line[11].under.layer, 4);
    assert_eq!(line[12], RED);
    // With the sprites switched off they do not show.
    e.set_dispcnt(0x0001_0100);
    e.draw_scanline(&g);
    assert_eq!(line_of(&e, 0)[10], RED);
}

#[test]
fn text_background_scrolls_and_flips() {
    let g = Gpu3D::new();
    let mut e = Gpu2DEngine::new(false);
    let mut palette = vec![0u16; 256];
    for i in 0..16 {
        palette[i] = i as u16;
        palette[16 + i] = 0x20 * i as u16;
    }
    e.load_palette(palette);
    let mut vram = vec![0u8; 0x8000];
    // Tile 1, sixteen colours: the colour number is the column plus the
    // row, at most 14.
    for row in 0..8 {
        for pair in 0..4 {
            let lo = (2 * pair + row) as u8;
            let hi = (2 * pair + 1 + row) as u8;
            vram[32 + row * 4 + pair] = lo | (hi << 4);
        }
    }
    // Map entries: tile 1 plain, flipped horizontally, flipped vertically
    // with palette 1.
    vram[0x800] = 1;
    vram[0x802] = 1;
    vram[0x803] = 0x04;
    vram[0x804] = 1;
    vram[0x805] = 0x18;
    e.load_vram(vram);
    e.set_bgcnt(1 << 8, 0);
    e.set_dispcnt(0x0001_0100);
    e.set_vcount(2);
    e.draw_scanline(&g);
    let line = line_of(&e, 2);
    for x in 0..8 {
        assert_eq!(line[x], to_argb((x + 2) as u16));
        assert_eq!(line[8 + x], to_argb((7 - x + 2) as u16));
        assert_eq!(line[16 + x], to_argb(0x20 * (x + 5) as u16));
    }
    assert_eq!(line[24], to_argb(0));
    // Scrolled by three columns and one row.
    e.set_bghofs(3, 0);
    e.set_bgvofs(1, 0);
    e.draw_scanline(&g);
    let line = line_of(&e, 2);
    assert_eq!(line[0], to_argb(6));
    assert_eq!(line[4], to_argb(10));
    assert_eq!(line[5], to_argb(10));
}

#[test]
fn text_background_with_256_colours_and_a_wide_map() {
    let g = Gpu3D::new();
    let mut e = Gpu2DEngine::new(false);
    let mut palette = vec![0u16; 256];
    palette[200] = 0x001F;
    palette[201] = 0x03E0;
    e.load_palette(palette);
    let mut vram = vec![0u8; 0x8000];
    for i in 0..64 {
        vram[0x4000 + 64 + i] = 200;
        vram[0x4000 + 128 + i] = 201;
    }
    for i in 0..(32 * 32) {
        vram[2 * i] = 1;
        vram[0x800 + 2 * i] = 2;
    }
    e.load_vram(vram);
    // 256 colours, tile pictures in block 1, map of 512 by 256 at block 0.
    e.set_bgcnt((1 << 7) | (1 << 2) | (1 << 14), 0);
    e.set_dispcnt(0x0001_0100);
    e.set_bghofs(128, 0);
    e.set_vcount(0);
    e.draw_scanline(&g);
    let line = line_of(&e, 0);
    assert_eq!(line[0], RED);
    assert_eq!(line[127], RED);
    assert_eq!(line[128], GREEN);
    assert_eq!(line[255], GREEN);
}

#[test]
fn extended_background_follows_its_reference_point() {
    let g = Gpu3D::new();
    let mut e = Gpu2DEngine::new(true);
    let mut palette = vec![0u16; 256];
    palette[1] = 0x001F;
    palette[2] = 0x03E0;
    e.load_palette(palette);
    let mut vram = vec![0u8; 0x10000];
    // A bitmap of 128 by 128: row 0 is colour 1, row 1 is colour 2 from
    // column 64 on.
    for x in 0..128 {
        vram[x] = 1;
    }
    for x in 64..128 {
        vram[128 + x] = 2;
    }
    e.load_vram(vram);
    e.set_bgcnt(0, 2);
    e.set_dispcnt(0x0001_0405);
    e.set_vcount(200);
    e.set_bg2p(0x0100, 0);
    e.set_bg2p(0x0100, 3);
    e.set_bg2x(0);
    e.set_bg2y(0);
    e.set_vcount(0);
    e.draw_scanline(&g);
    let line = line_of(&e, 0);
    assert_eq!(line[0], RED);
    assert_eq!(line[127], RED);
    assert_eq!(line[128], 0xFF00_0000);
    // The reference point has moved on by one row.
    assert_eq!(e.bg2y_internal, 0x100);
    e.set_vcount(1);
    e.draw_scanline(&g);
    let line = line_of(&e, 1);
    assert_eq!(line[63], 0xFF00_0000);
    assert_eq!(line[64], GREEN);
    // With wrap-around the bitmap repeats.
    e.set_bgcnt(1 << 13, 2);
    e.set_vcount(200);
    e.set_bg2y(0);
    e.set_vcount(2);
    e.draw_scanline(&g);
    assert_eq!(line_of(&e, 2)[128], RED);
    assert_eq!(line_of(&e, 2)[255], RED);
}

#[test]
fn window_hides_a_background_inside_it() {
    let g = Gpu3D::new();
    let mut e = engine();
    e.set_bgcnt(bgcnt(0, 1), 0);
    // Window 0 from column 32 to 64 on lines 10 to 20, background 0 only
    // outside it.
    e.set_win0h((32 << 8) | 64);
    e.set_win0v((10 << 8) | 20);
    e.set_winin(0x0000);
    e.set_winout(0x0001);
    e.set_dispcnt(0x0001_2100);
    e.set_vcount(10);
    e.draw_scanline(&g);
    let line = line_of(&e, 10);
    assert_eq!(line[31], RED);
    assert_eq!(line[32], BLUE);
    assert_eq!(line[63], BLUE);
    assert_eq!(line[64], RED);
    assert!(e.win0_active);
    assert_eq!(e.window_mask[32], 0);
    assert_eq!(e.window_mask[31], 1);
    e.set_vcount(20);
    e.draw_scanline(&g);
    assert!(line_of(&e, 20).iter().all(|&p| p == RED));
    assert!(!e.win0_active);
}

#[test]
fn object_window_takes_its_shape_from_the_sprites() {
    let g = Gpu3D::new();
    let mut e = engine();
    e.set_bgcnt(bgcnt(0, 1), 0);
    e.set_winout(0x0100);
    e.set_dispcnt(0x0001_8100);
    let mut sprites = vec![0u32; 256];
    sprites[7] = 0x4000_0000;
    assert!(e.load_sprite_scanline(sprites));
    e.set_vcount(0);
    e.draw_scanline(&g);
    let line = line_of(&e, 0);
    assert_eq!(line[6], BLUE);
    assert_eq!(line[7], RED);
    assert_eq!(line[8], BLUE);
}

#[test]
fn blend_formulas() {
    // Alpha: (31 * 8 + 0 * 8) / 16 = 15 for red, (0 * 8 + 31 * 8) / 16 = 15
    // for green.
    assert_eq!(blend_alpha_exec(RED, GREEN, 8, 8), 0xFF78_7800);
    // The sum is cut off at 31.
    assert_eq!(blend_alpha_exec(WHITE, WHITE, 16, 16), WHITE);
    assert_eq!(blend_alpha_exec(RED, GREEN, 16, 0), RED);
    assert_eq!(blend_alpha_exec(RED, GREEN, 0, 16), GREEN);
    // Brighter: 0 + (31 - 0) * 8 / 16 = 15; 31 stays.
    assert_eq!(blend_brighten_exec(RED, 8), 0xFFF8_7878);
    assert_eq!(blend_brighten_exec(RED, 16), WHITE);
    assert_eq!(blend_brighten_exec(RED, 0), RED);
    // Darker: 31 - 31 * 8 / 16 = 16.
    assert_eq!(blend_darken_exec(WHITE, 8), 0xFF80_8080);
    assert_eq!(blend_darken_exec(WHITE, 16), 0xFF00_0000);
    assert_eq!(blend_darken_exec(WHITE, 5), 0xFFB0_B0B0);
}

#[test]
fn alpha_blending_mixes_first_and_second_target() {
    let g = Gpu3D::new();
    let mut e = engine();
    e.set_bgcnt(bgcnt(0, 1), 0);
    e.set_bgcnt(bgcnt(1, 2), 1);
    e.set_dispcnt(0x0001_0300);
    // Background 0 is first target, background 1 second target, alpha.
    e.set_bldcnt(0x0001 | (1 << 6) | 0x0200);
    e.set_bldalpha(0x0808);
    e.set_vcount(0);
    e.draw_scanline(&g);
    assert!(line_of(&e, 0).iter().all(|&p| p == 0xFF78_7800));
    // Without a second target behind it the first target is not blended.
    e.set_bldcnt(0x0001 | (1 << 6) | 0x0400);
    e.draw_scanline(&g);
    assert!(line_of(&e, 0).iter().all(|&p| p == RED));
    // Brightness needs no second target.
    e.set_bldcnt(0x0001 | (2 << 6));
    e.set_bldy(16);
    e.draw_scanline(&g);
    assert!(line_of(&e, 0).iter().all(|&p| p == WHITE));
    e.set_bldcnt(0x0001 | (3 << 6));
    e.draw_scanline(&g);
    assert!(line_of(&e, 0).iter().all(|&p| p == 0xFF00_0000));
    // A window that does not allow blending switches the effect off.
    e.set_winout(0x001F);
    e.set_win0h(0);
    e.set_dispcnt(0x0001_2300);
    e.draw_scanline(&g);
    assert!(line_of(&e, 0).iter().all(|&p| p == RED));
}

#[test]
fn display_mode_two_shows_the_capture_bank() {
    let g = Gpu3D::new();
    let mut e = engine();
    let mut bank = vec![0u16; 256 * 192];
    bank[256 * 5 + 9] = 0x03E0;
    e.load_capture(bank);
    e.set_dispcnt(0x0002_0000);
    e.set_vcount(5);
    e.draw_scanline(&g);
    let line = line_of(&e, 5);
    assert_eq!(line[9], GREEN);
    assert_eq!(line[8], 0xFF00_0000);
    e.set_dispcnt(0x0003_0000);
    e.draw_scanline(&g);
    assert!(line_of(&e, 5).iter().all(|&p| p == 0xFF00_0000));
}

#[test]
fn painting_keeps_the_two_frontmost_pixels() {
    let back = LayerPixel { color: 1, layer: 5, priority: 4 };
    let stack = PixelStack { top: back, under: back };
    let bg3 = LayerPixel { color: 2, layer: 3, priority: 1 };
    let bg0 = LayerPixel { color: 3, layer: 0, priority: 1 };
    let obj = LayerPixel { color: 4, layer: 4, priority: 2 };
    let s = paint_exec(paint_exec(paint_exec(stack, bg0), bg3), obj);
    assert_eq!((s.top.color, s.under.color), (3, 2));
    let s = paint_exec(paint_exec(paint_exec(stack, obj), bg3), bg0);
    assert_eq!((s.top.color, s.under.color), (3, 2));
}

#[test]
fn frame_buffers_copy_as_far_as_the_shorter_reaches() {
    let mut e = Gpu2DEngine::new(true);
    e.set_framebuffer(&[1, 2, 3]);
    assert_eq!(&e.framebuffer[0..4], &[1, 2, 3, 0]);
    e.front_framebuffer[0] = 9;
    e.front_framebuffer[1] = 8;
    let mut short = [0u32; 2];
    e.get_framebuffer(&mut short);
    assert_eq!(short, [9, 8]);
    let mut long = vec![7u32; 256 * 192 + 2];
    e.get_framebuffer(&mut long);
    assert_eq!(long[0], 9);
    assert_eq!(long[256 * 192 - 1], 0);
    assert_eq!(long[256 * 192], 7);
}

#[test]
fn single_layers_can_be_drawn_one_by_one() {
    let mut e = engine();
    e.set_bgcnt(bgcnt(3, 1), 2);
    e.set_vcount(0);
    e.update_window_mask();
    e.draw_backdrop();
    assert_eq!(e.line[0].top.color, BLUE);
    e.draw_bg_txt(2);
    assert_eq!(e.line[0].top.color, RED);
    assert_eq!(e.line[0].top.priority, 3);
    assert_eq!(e.line[0].under.color, BLUE);
    e.set_bgcnt(bgcnt(3, 2), 1);
    e.draw_bg_ext(1);
    assert_eq!(e.line[0].top.color, GREEN);
    e.draw_bg_3d(&vec![Some(WHITE); 256]);
    assert_eq!(e.line[0].top.color, WHITE);
    assert_eq!(e.line[0].top.layer, 0);
    let mut sprites = vec![0u32; 256];
    sprites[0] = 0x8003_0000;
    assert!(e.load_sprite_scanline(sprites));
    e.draw_sprites();
    assert_eq!(e.line[0].top.color, WHITE);
    assert_eq!(e.line[0].under.layer, 4);
}
