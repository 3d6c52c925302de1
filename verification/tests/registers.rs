use corgi_gpu::gpu3d::Gpu3D;
use corgi_gpu::gpueng::Gpu2DEngine;

#[test]
fn dispcnt_round_trip_keeps_all_but_bit_7() {
    let mut e = Gpu2DEngine::new(true);
    e.set_dispcnt(0xFFFF_FFFF);
    assert_eq!(e.get_disp_cnt(), 0xFFFF_FF7F);
    e.set_dispcnt(0x0001_0100);
    assert_eq!(e.get_disp_cnt(), 0x0001_0100);
    e.set_dispcnt(0xA5A5_5A5A);
    assert_eq!(e.get_disp_cnt(), 0xA5A5_5A5A & 0xFFFF_FF7F);
}

#[test]
fn dispcnt_low_half_leaves_high_fields() {
    let mut e = Gpu2DEngine::new(true);
    e.set_dispcnt(0x0003_0000);
    e.set_dispcnt_lo(0x1F05);
    assert_eq!(e.get_disp_cnt(), 0x0003_1F05);
    assert_eq!(e.disp_cnt.bg_mode, 5);
    assert_eq!(e.disp_cnt.display_mode, 3);
    assert!(e.disp_cnt.display_obj);
}

#[test]
fn bgcnt_round_trip_and_index_out_of_range() {
    let mut e = Gpu2DEngine::new(false);
    for i in 0..4 {
        e.set_bgcnt(0xBEE0 + i as u16, i);
    }
    for i in 0..4 {
        assert_eq!(e.get_bgcnt(i), 0xBEE0 + i as u16);
    }
    e.set_bgcnt(0x1234, 4);
    assert_eq!(e.get_bgcnt(4), 0);
    assert_eq!(e.get_bgcnt(3), 0xBEE3);
}

#[test]
fn window_registers_round_trip_their_enable_bits() {
    let mut e = Gpu2DEngine::new(true);
    e.set_winin(0xFFFF);
    assert_eq!(e.get_winin(), 0x3F3F);
    e.set_winin(0x2A15);
    assert_eq!(e.get_winin(), 0x2A15);
    e.set_winout(0xFFFF);
    assert_eq!(e.get_winout(), 0x3F3F);
    e.set_winout(0x1503);
    assert_eq!(e.get_winout(), 0x1503);
    assert!(e.winout.outside_bg_enabled[0]);
    assert!(e.winout.outside_bg_enabled[1]);
    assert!(!e.winout.outside_bg_enabled[2]);
    assert!(e.winout.objwin_bg_enabled[0]);
    assert!(e.winout.objwin_obj_enabled);
}

#[test]
fn bldcnt_round_trip() {
    let mut e = Gpu2DEngine::new(true);
    e.set_bldcnt(0xFFFF);
    assert_eq!(e.get_bldcnt(), 0x3FFF);
    e.set_bldcnt(0x2241);
    assert_eq!(e.get_bldcnt(), 0x2241);
    assert_eq!(e.bldcnt.effect, 1);
    assert!(e.bldcnt.bg_first_target_pix[0]);
    assert!(e.bldcnt.bg_second_target_pix[1]);
    assert!(e.bldcnt.bd_second_target_pix);
}

#[test]
fn blend_factors_clamp_to_sixteen() {
    let mut e = Gpu2DEngine::new(true);
    e.set_bldalpha(0x1F1F);
    assert_eq!(e.get_bldalpha(), 0x1010);
    e.set_bldalpha(0x0C07);
    assert_eq!(e.get_bldalpha(), 0x0C07);
    e.set_bldalpha(0xE0F1);
    assert_eq!(e.get_bldalpha(), 0x0010);
    e.set_bldy(0xFF);
    assert_eq!(e.bldy, 16);
    e.set_bldy(9);
    assert_eq!(e.bldy, 9);
}

#[test]
fn scroll_offsets_wrap_at_nine_bits() {
    let mut e = Gpu2DEngine::new(true);
    e.set_bghofs(0xFFFF, 1);
    e.set_bgvofs(0x0234, 2);
    assert_eq!(e.get_bghofs(1), 0x1FF);
    assert_eq!(e.get_bgvofs(2), 0x034);
    assert_eq!(e.get_bghofs(7), 0);
    assert_eq!(e.get_bgvofs(9), 0);
}

#[test]
fn master_brightness_keeps_mode_and_clamps_factor() {
    let mut e = Gpu2DEngine::new(true);
    e.set_master_bright(0xFFFF);
    assert_eq!(e.get_master_bright(), 0xC010);
    e.set_master_bright(0x4005);
    assert_eq!(e.get_master_bright(), 0x4005);
}

#[test]
fn capture_control_clamps_factors_and_is_engine_a_only() {
    let mut a = Gpu2DEngine::new(true);
    a.set_disp_capcnt(0x8000_1F1F);
    assert_eq!(a.disp_capcnt.eva, 16);
    assert_eq!(a.disp_capcnt.evb, 16);
    assert!(a.disp_capcnt.enable_busy);
    assert_eq!(a.captured_lines, -1);
    // The read is rebuilt from the fields: the clamped factors read as 16.
    assert_eq!(a.get_disp_capcnt(), 0x8000_1010);
    assert_eq!(a.disp_capcnt_val, 0x8000_1F1F);
    a.set_disp_capcnt(0xEF3F_100C);
    assert_eq!(a.get_disp_capcnt(), 0xEF3F_100C);
    a.set_disp_capcnt(0xFFFF_FFFF);
    assert_eq!(a.get_disp_capcnt(), 0xEF3F_1010);
    a.set_disp_capcnt(0x2415_0307);
    assert_eq!(a.get_disp_capcnt(), 0x2415_0307);
    assert_eq!(a.disp_capcnt.capture_source, 1);
    assert_eq!(a.disp_capcnt.vram_read_offset, 1);
    assert_eq!(a.disp_capcnt.capture_size, 1);
    a.vblank_start();
    assert_eq!(a.disp_capcnt_val, 0);
    assert_eq!(a.get_disp_capcnt(), 0x2415_0307);
    let mut b = Gpu2DEngine::new(false);
    b.set_disp_capcnt(0x8000_1F1F);
    assert_eq!(b.get_disp_capcnt(), 0);
    assert_eq!(b.disp_capcnt.eva, 0);
    assert!(!b.disp_capcnt.enable_busy);
}

#[test]
fn plain_registers_read_back() {
    let mut e = Gpu2DEngine::new(true);
    e.set_win0h(0x10F0);
    e.set_win1h(0x2030);
    e.set_win0v(0x1122);
    e.set_win1v(0x3344);
    e.set_mosaic(0x0F0F);
    assert_eq!(e.win0h, 0x10F0);
    assert_eq!(e.win1h, 0x2030);
    assert_eq!(e.get_win0v(), 0x1122);
    assert_eq!(e.get_win1v(), 0x3344);
    assert_eq!(e.mosaic, 0x0F0F);
}

#[test]
fn affine_writes_latch_only_outside_active_display() {
    let mut e = Gpu2DEngine::new(true);
    e.set_vcount(100);
    e.set_bg2x(0x0000_1234);
    e.set_bg2p(0x0100, 0);
    assert_eq!(e.bg2x, 0x1234);
    assert_eq!(e.bg2x_internal, 0);
    assert_eq!(e.bg2p_internal[0], 0);
    e.set_vcount(200);
    e.set_bg2y(0xFFFF_FFFF);
    e.set_bg3x(7);
    e.set_bg3y(8);
    e.set_bg3p(0xFFFF, 3);
    assert_eq!(e.bg2y_internal, -1);
    assert_eq!(e.bg3x_internal, 7);
    assert_eq!(e.bg3y_internal, 8);
    assert_eq!(e.bg3p_internal[3], -1);
    e.vblank_start();
    assert_eq!(e.bg2x_internal, 0x1234);
    assert_eq!(e.bg2p_internal[0], 0x0100);
}

#[test]
fn disp3dcnt_round_trip_and_error_acknowledge() {
    let mut g = Gpu3D::new();
    g.set_disp3dcnt(0x4FFF);
    assert_eq!(g.get_disp3dcnt(), 0x4FFF);
    g.state.disp3dcnt.ram_overflow = true;
    g.set_disp3dcnt(0x0001);
    assert_eq!(g.get_disp3dcnt(), 0x2001);
    g.set_disp3dcnt(0x2001);
    assert_eq!(g.get_disp3dcnt(), 0x0001);
}

#[test]
fn gxstat_reports_queue_and_stack() {
    let mut g = Gpu3D::new();
    assert_eq!(g.get_gxstat(), (1 << 25) | (1 << 26));
    g.set_gxstat(0x8000_0000);
    assert_eq!(g.get_gxstat() >> 30, 2);
    assert!(g.check_fifo_irq());
    g.write_fifo_direct(0x444, 0);
    assert_eq!((g.get_gxstat() >> 16) & 0x1FF, 1);
    assert!(!g.check_fifo_irq());
    assert!(g.check_fifo_dma());
    g.set_mtx_mode(1);
    g.mtx_push();
    g.mtx_push();
    assert_eq!((g.get_gxstat() >> 8) & 0x1F, 2);
}

#[test]
fn small_3d_registers() {
    let mut g = Gpu3D::new();
    g.set_clear_color(0x001F_7FFF);
    g.set_clear_depth(0x7FFF);
    g.set_toon_table(0x3E, 0x1234);
    g.color(0xFFFF_FFFF);
    g.viewport_cmd(0xBFFF_0000);
    g.set_polygon_attr(0x3F1F_00C0);
    g.set_teximage_param(0x0001_0020);
    assert_eq!(g.state.clear_color, 0x001F_7FFF);
    assert_eq!(g.state.clear_depth, 0x7FFF);
    assert_eq!(g.state.toon_table[31], 0x1234);
    assert_eq!(g.state.current_color, 0x7FFF);
    assert_eq!((g.state.viewport.x1, g.state.viewport.y1), (0, 0));
    assert_eq!((g.state.viewport.x2, g.state.viewport.y2), (255, 191));
    assert_eq!(g.state.polygon_attr.alpha, 31);
    assert_eq!(g.state.polygon_attr.id, 63);
    assert!(g.state.polygon_attr.render_back && g.state.polygon_attr.render_front);
    assert_eq!(g.state.teximage_param.vram_offset, 0x20);
    assert!(g.state.teximage_param.repeat_s);
}
