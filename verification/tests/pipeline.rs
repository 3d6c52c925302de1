use corgi_gpu::gpu3d::{Gpu3D, GxCommand};
use corgi_gpu::gpueng::Gpu2DEngine;

const RED: u32 = 0xFFF8_0000;
const BLUE: u32 = 0xFF00_00F8;

fn frame(e: &mut Gpu2DEngine, g: &Gpu3D) -> Vec<u32> {
    for line in 0..192 {
        e.set_vcount(line);
        e.draw_scanline(g);
    }
    e.set_vcount(192);
    e.vblank_start();
    let mut out = vec![0u32; 256 * 192];
    e.get_framebuffer(&mut out);
    out
}

fn engine() -> Gpu2DEngine {
    let mut e = Gpu2DEngine::new(true);
    let mut palette = vec![0u16; 256];
    palette[0] = 0x7C00;
    e.load_palette(palette);
    // Composed picture, background 0 shown, as the 3D layer.
    e.set_dispcnt(0x0001_0108);
    e
}

#[test]
fn triangle_travels_from_the_queue_to_the_frame_buffer() {
    let mut g = Gpu3D::new();
    g.set_clear_depth(0x7FFF);
    g.enqueue(GxCommand::with_params(0x60, &[0xBFFF_0000])).unwrap();
    g.enqueue(GxCommand::with_params(0x20, &[0x001F])).unwrap();
    g.enqueue(GxCommand::plain(0x15)).unwrap();
    g.enqueue(GxCommand::with_params(0x1C, &[0, 0, (-10i32) as u32])).unwrap();
    g.enqueue(GxCommand::with_params(0x40, &[0])).unwrap();
    g.enqueue(GxCommand::with_params(0x23, &[0xF800_F800, 0])).unwrap();
    g.enqueue(GxCommand::with_params(0x23, &[0xF800_0800, 0])).unwrap();
    g.enqueue(GxCommand::with_params(0x23, &[0x0800_0000, 0])).unwrap();
    g.enqueue(GxCommand::with_params(0x50, &[0])).unwrap();
    let mut e = engine();
    // Before the frame tick nothing of the triangle shows.
    let before = frame(&mut e, &g);
    assert!(before.iter().all(|&p| p == BLUE));
    g.run(100_000);
    g.end_of_frame();
    assert_eq!(g.get_poly_count(), 1);
    assert_eq!(g.get_vert_count(), 3);
    let poly = g.rend_poly[0];
    assert_eq!((poly.top_y, poly.bottom_y), (48, 144));
    assert_eq!(g.rend_vert[0].coords, [64, 144, 16343, 4096]);
    assert_eq!(g.rend_vert[1].coords, [192, 144, 16343, 4096]);
    assert_eq!(g.rend_vert[2].coords, [128, 48, 16343, 4096]);
    let shown = frame(&mut e, &g);
    assert_eq!(shown[96 * 256 + 128], RED);
    assert_eq!(shown[0], BLUE);
    assert_eq!(shown[191 * 256 + 255], BLUE);
    assert_eq!(shown[47 * 256 + 128], BLUE);
    assert_eq!(shown[48 * 256 + 128], RED);
    assert_eq!(shown[144 * 256 + 64], RED);
    assert_eq!(shown[144 * 256 + 63], BLUE);
    assert_eq!(shown[145 * 256 + 128], BLUE);
    assert_eq!(shown[96 * 256 + 95], BLUE);
    assert_eq!(shown[96 * 256 + 96], RED);
    assert_eq!(shown[96 * 256 + 160], RED);
    assert_eq!(shown[96 * 256 + 161], BLUE);
}

fn flat_triangle(g: &mut Gpu3D, color: u32, z: u32, attr: u32) {
    g.exec_command(GxCommand::with_params(0x20, &[color]));
    g.exec_command(GxCommand::with_params(0x29, &[attr]));
    g.exec_command(GxCommand::with_params(0x40, &[0]));
    g.exec_command(GxCommand::with_params(0x23, &[0xF000_F000, z]));
    g.exec_command(GxCommand::with_params(0x23, &[0xF000_1000, z]));
    g.exec_command(GxCommand::with_params(0x23, &[0x1000_0000, z]));
    g.exec_command(GxCommand::plain(0x41));
}

fn centre(g: &Gpu3D) -> Option<u32> {
    let mut colors = vec![0u32; 256];
    let mut marks = vec![0xFFu8; 256];
    g.render_scanline(96, &mut colors, &mut marks, 2);
    if marks[128] == 2 {
        Some(colors[128])
    } else {
        assert_eq!(marks[128], 0xFF);
        None
    }
}

#[test]
fn nearer_polygon_wins_whatever_the_order() {
    for near_first in [true, false] {
        let mut g = Gpu3D::new();
        g.viewport_cmd(0xBFFF_0000);
        g.set_clear_depth(0x7FFF);
        if near_first {
            flat_triangle(&mut g, 0x001F, 0xF000, 0x001F_0000);
            flat_triangle(&mut g, 0x03E0, 0x0800, 0x001F_0000);
        } else {
            flat_triangle(&mut g, 0x03E0, 0x0800, 0x001F_0000);
            flat_triangle(&mut g, 0x001F, 0xF000, 0x001F_0000);
        }
        g.swap_buffers(0);
        g.end_of_frame();
        assert_eq!(g.get_poly_count(), 2);
        assert_eq!(centre(&g), Some(RED));
    }
}

#[test]
fn depth_equal_mode_draws_only_at_the_same_depth() {
    let mut g = Gpu3D::new();
    g.viewport_cmd(0xBFFF_0000);
    g.set_clear_depth(0x7FFF);
    flat_triangle(&mut g, 0x001F, 0x0000, 0x001F_0000);
    // Same depth, depth-equal test: drawn over the first.
    flat_triangle(&mut g, 0x03E0, 0x0000, 0x001F_4000);
    // Nearer, depth-equal test: not drawn.
    flat_triangle(&mut g, 0x7C00, 0xF000, 0x001F_4000);
    g.swap_buffers(0);
    g.end_of_frame();
    assert_eq!(centre(&g), Some(0xFF00_F800));
}

#[test]
fn translucent_polygons_of_one_id_do_not_cover_each_other() {
    let mut g = Gpu3D::new();
    g.viewport_cmd(0xBFFF_0000);
    g.set_clear_depth(0x7FFF);
    // Alpha 16, id 5, far; then alpha 16, id 5, nearer; then id 6.
    flat_triangle(&mut g, 0x001F, 0x0800, 0x0510_0800);
    flat_triangle(&mut g, 0x03E0, 0x0000, 0x0510_0800);
    g.swap_buffers(0);
    g.end_of_frame();
    assert!(g.rend_poly[0].translucent);
    assert_eq!(centre(&g), Some(RED));
    flat_triangle(&mut g, 0x001F, 0x0800, 0x0510_0800);
    flat_triangle(&mut g, 0x03E0, 0x0000, 0x0610_0800);
    g.swap_buffers(0);
    g.end_of_frame();
    assert_eq!(centre(&g), Some(0xFF00_F800));
}

#[test]
fn rear_plane_shows_where_its_alpha_is_set() {
    let mut g = Gpu3D::new();
    g.set_clear_depth(0x7FFF);
    assert_eq!(centre(&g), None);
    g.set_clear_color(0x001F_03E0);
    assert_eq!(centre(&g), Some(0xFF00_F800));
}

#[test]
fn full_buffers_drop_polygons_and_set_the_overflow_flag() {
    let mut g = Gpu3D::new();
    g.viewport_cmd(0xBFFF_0000);
    g.begin_vtxs(0);
    for _ in 0..2048 {
        g.exec_command(GxCommand::with_params(0x23, &[0xF800_F800, 0]));
        g.exec_command(GxCommand::with_params(0x23, &[0xF800_0800, 0]));
        g.exec_command(GxCommand::with_params(0x23, &[0x0800_0000, 0]));
    }
    assert_eq!(g.geo_poly.len(), 2048);
    assert_eq!(g.geo_vert.len(), 6144);
    assert!(!g.state.disp3dcnt.ram_overflow);
    g.exec_command(GxCommand::with_params(0x23, &[0xF800_F800, 0]));
    g.exec_command(GxCommand::with_params(0x23, &[0xF800_0800, 0]));
    g.exec_command(GxCommand::with_params(0x23, &[0x0800_0000, 0]));
    assert_eq!(g.geo_poly.len(), 2048);
    assert_eq!(g.geo_vert.len(), 6144);
    assert!(g.state.disp3dcnt.ram_overflow);
    assert_eq!(g.get_disp3dcnt() & 0x2000, 0x2000);
}

#[test]
fn strips_share_their_last_two_vertices() {
    let mut g = Gpu3D::new();
    g.viewport_cmd(0xBFFF_0000);
    g.begin_vtxs(2);
    for p in [0xF800_F800u32, 0xF800_0800, 0x0800_F800, 0x0800_0800, 0x0000_0000] {
        g.exec_command(GxCommand::with_params(0x23, &[p, 0]));
    }
    assert_eq!(g.geo_poly.len(), 3);
    assert_eq!(g.geo_vert.len(), 9);
    assert_eq!(g.state.vertex_list_count, 2);
    g.begin_vtxs(3);
    for p in [0xF800_F800u32, 0xF800_0800, 0x0800_F800, 0x0800_0800, 0x0000_F800, 0x0000_0800] {
        g.exec_command(GxCommand::with_params(0x23, &[p, 0]));
    }
    assert_eq!(g.geo_poly.len(), 5);
    assert_eq!(g.geo_poly[3].vertices, 4);
    g.begin_vtxs(1);
    for p in [0xF800_F800u32, 0xF800_0800, 0x0800_0800, 0x0800_F800, 0] {
        g.exec_command(GxCommand::with_params(0x23, &[p, 0]));
    }
    assert_eq!(g.geo_poly.len(), 6);
    assert_eq!(g.state.vertex_list_count, 1);
    // Outside a run a vertex is ignored.
    g.end_vtxs();
    g.exec_command(GxCommand::with_params(0x23, &[0, 0]));
    assert_eq!(g.state.vertex_list_count, 0);
}

#[test]
fn vertex_formats() {
    let mut g = Gpu3D::new();
    g.exec_command(GxCommand::with_params(0x23, &[0x0002_0001, 0xFFFF_0003]));
    assert_eq!(g.state.current_vertex, [1, 2, 3]);
    g.exec_command(GxCommand::with_params(0x24, &[(0x3FF << 20) | (2 << 10) | 1]));
    assert_eq!(g.state.current_vertex, [64, 128, -64]);
    g.exec_command(GxCommand::with_params(0x25, &[0x0005_0004]));
    assert_eq!(g.state.current_vertex, [4, 5, -64]);
    g.exec_command(GxCommand::with_params(0x26, &[0x0007_0006]));
    assert_eq!(g.state.current_vertex, [6, 5, 7]);
    g.exec_command(GxCommand::with_params(0x27, &[0xFFFF_0008]));
    assert_eq!(g.state.current_vertex, [6, 8, -1]);
    g.exec_command(GxCommand::with_params(0x22, &[0x0010_FFF0]));
    assert_eq!(g.state.current_texcoords, [-16, 16]);
    g.exec_command(GxCommand::with_params(0x2B, &[0xFFFF_FFFF]));
    assert_eq!(g.state.pltt_base, 0x1FFF);
}

#[test]
fn box_test_tells_whether_the_box_is_in_view() {
    let mut g = Gpu3D::new();
    g.exec_command(GxCommand::with_params(0x70, &[0xF800_F800, 0x1000_F800, 0x1000_1000]));
    assert!(g.state.gxstat.boxtest_result);
    assert_eq!(g.get_gxstat() & 2, 2);
    assert!(!g.state.mtx.clip_dirty);
    g.exec_command(GxCommand::with_params(0x70, &[0xF800_2000, 0x1000_F800, 0x1000_1000]));
    assert!(!g.state.gxstat.boxtest_result);
    // A box that reaches across the plane at x = w.
    g.exec_command(GxCommand::with_params(0x70, &[0xF800_0800, 0x1000_F800, 0x1000_1000]));
    assert!(g.state.gxstat.boxtest_result);
    let mut params = [0u32; 32];
    params[0] = 0x4000_4000;
    params[1] = 0x0100_4000;
    params[2] = 0x0100_0100;
    g.box_test(&params);
    assert!(!g.state.gxstat.boxtest_result);
}

#[test]
fn vector_test_carries_the_vector_through_the_direction_matrix() {
    let mut g = Gpu3D::new();
    g.vec_test(0x1FF);
    assert_eq!(g.state.vec_test_result, [4088, 0, 0]);
    g.vec_test(0x200 | (0x100 << 10) | (0x3FF << 20));
    assert_eq!(g.state.vec_test_result, [-4096, 2048, -8]);
    assert_eq!(g.read_vec_test(0), 0xF000);
    assert_eq!(g.read_vec_test(2), 2048);
    assert_eq!(g.read_vec_test(4), 0xFFF8);
    assert_eq!(g.read_vec_test(6), 0);
    g.set_mtx_mode(2);
    g.exec_command(GxCommand::with_params(0x1A, &[0, 4096, 0, 4096, 0, 0, 0, 0, 4096]));
    g.exec_command(GxCommand::with_params(0x72, &[0x100]));
    assert_eq!(g.state.vec_test_result, [0, 2048, 0]);
}
