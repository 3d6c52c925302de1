use corgi_gpu::gpu3d::{Gpu3D, GxCommand};
use corgi_gpu::matrix::Mtx;

fn unit() -> [[i32; 4]; 4] {
    [[4096, 0, 0, 0], [0, 4096, 0, 0], [0, 0, 4096, 0], [0, 0, 0, 4096]]
}

#[test]
fn push_and_pop_move_the_depth() {
    let mut g = Gpu3D::new();
    g.set_mtx_mode(1);
    for _ in 0..5 {
        g.mtx_push();
    }
    assert_eq!(g.state.mtx.modelview_sp, 5);
    g.mtx_pop(2);
    assert_eq!(g.state.mtx.modelview_sp, 3);
    g.mtx_pop(1);
    g.mtx_push();
    g.mtx_push();
    assert_eq!(g.state.mtx.modelview_sp, 4);
    assert!(!g.state.gxstat.mtx_overflow);
}

#[test]
fn pop_gives_back_the_matrix_that_was_pushed() {
    let mut g = Gpu3D::new();
    g.set_mtx_mode(2);
    let first = Mtx { m: [[1, 2, 3, 4], [5, 6, 7, 8], [9, 10, 11, 12], [13, 14, 15, 16]] };
    let second = Mtx { m: [[-1, 0, 0, 0], [0, -2, 0, 0], [0, 0, -3, 0], [0, 0, 0, -4]] };
    g.state.mtx.load(&first);
    g.mtx_push();
    g.state.mtx.load(&second);
    g.mtx_push();
    g.mtx_identity();
    assert_eq!(g.state.mtx.modelview_mtx.m, unit());
    g.mtx_pop(1);
    assert_eq!(g.state.mtx.modelview_mtx.m, second.m);
    assert_eq!(g.state.mtx.vector_mtx.m, second.m);
    g.mtx_pop(1);
    assert_eq!(g.state.mtx.modelview_mtx.m, first.m);
    assert_eq!(g.state.mtx.modelview_sp, 0);
    assert!(g.state.mtx.clip_dirty);
}

#[test]
fn push_past_capacity_sets_the_flag_and_keeps_the_stack() {
    let mut g = Gpu3D::new();
    g.set_mtx_mode(1);
    for _ in 0..32 {
        g.mtx_push();
    }
    assert_eq!(g.state.mtx.modelview_sp, 32);
    assert!(!g.state.gxstat.mtx_overflow);
    g.mtx_push();
    assert_eq!(g.state.mtx.modelview_sp, 32);
    assert!(g.state.gxstat.mtx_overflow);
    g.set_gxstat(0x8000);
    assert!(!g.state.gxstat.mtx_overflow);
    g.set_mtx_mode(0);
    g.mtx_push();
    assert_eq!(g.state.mtx.projection_sp, 1);
    assert!(!g.state.gxstat.mtx_overflow);
    g.mtx_push();
    assert_eq!(g.state.mtx.projection_sp, 1);
    assert!(g.state.gxstat.mtx_overflow);
}

#[test]
fn pop_past_empty_clamps_at_zero_and_sets_the_flag() {
    let mut g = Gpu3D::new();
    g.set_mtx_mode(1);
    g.mtx_push();
    g.mtx_push();
    g.mtx_pop(5);
    assert_eq!(g.state.mtx.modelview_sp, 0);
    assert!(g.state.gxstat.mtx_overflow);
}

#[test]
fn identity_times_matrix_is_the_matrix() {
    let m = Mtx { m: [[1, 2, 3, 4], [5, 6, 7, 8], [9, 10, 11, 12], [13, 14, 15, 16]] };
    let u = Mtx::new_identity();
    assert_eq!(u.multiply(&m).m, m.m);
    assert_eq!(m.multiply(&u).m, m.m);
}

#[test]
fn product_rounds_toward_minus_infinity() {
    let half = Mtx { m: [[2048, 0, 0, 0], [0, 2048, 0, 0], [0, 0, 2048, 0], [0, 0, 0, 2048]] };
    let m = Mtx { m: [[3, -3, 0, 0], [0, 4096, 0, 0], [0, 0, -4096, 0], [1, -1, 0, 8192]] };
    let p = half.multiply(&m);
    assert_eq!(p.m[0], [1, -2, 0, 0]);
    assert_eq!(p.m[1], [0, 2048, 0, 0]);
    assert_eq!(p.m[2], [0, 0, -2048, 0]);
    assert_eq!(p.m[3], [0, -1, 0, 4096]);
}

#[test]
fn product_cuts_off_what_does_not_fit() {
    let big = Mtx { m: [[i32::MAX, 0, 0, 0], [0, 0, 0, 0], [0, 0, 0, 0], [0, 0, 0, 0]] };
    let p = big.multiply(&big);
    let exact = ((i32::MAX as i128) * (i32::MAX as i128)).div_euclid(4096);
    assert_eq!(p.m[0][0], exact as i32);
}

#[test]
fn point_goes_through_the_matrix() {
    let t = Mtx { m: [[4096, 0, 0, 0], [0, 4096, 0, 0], [0, 0, 4096, 0], [100, 200, -10, 4096]] };
    assert_eq!(t.transform_point(2048, -2048, 0), [2148, -1848, -10, 4096]);
}

#[test]
fn translate_command_moves_the_current_matrix() {
    let mut g = Gpu3D::new();
    g.set_mtx_mode(1);
    g.exec_command(GxCommand::with_params(0x1C, &[4096, 8192, (-4096i32) as u32]));
    assert_eq!(g.state.mtx.modelview_mtx.m[3], [4096, 8192, -4096, 4096]);
    g.exec_command(GxCommand::with_params(0x1B, &[8192, 8192, 8192]));
    assert_eq!(g.state.mtx.modelview_mtx.m[0], [8192, 0, 0, 0]);
    assert_eq!(g.state.mtx.modelview_mtx.m[3], [4096, 8192, -4096, 4096]);
    assert_eq!(g.read_clip_mtx(0x30), 4096);
    assert_eq!(g.read_clip_mtx(0x34), 8192);
    assert!(!g.state.mtx.clip_dirty);
}

#[test]
fn word_by_word_multiplication_fires_with_the_last_word() {
    let mut g = Gpu3D::new();
    g.set_mtx_mode(1);
    let words: [u32; 16] = [8192, 0, 0, 0, 0, 8192, 0, 0, 0, 0, 8192, 0, 0, 0, 0, 4096];
    for (i, w) in words.iter().enumerate() {
        assert_eq!(g.state.mtx.mult_params_index as usize, i);
        g.mtx_mult_4x4(*w);
    }
    assert_eq!(g.state.mtx.mult_params_index, 0);
    assert_eq!(g.state.mtx.modelview_mtx.m[0], [8192, 0, 0, 0]);
    for w in [4096u32, 0, 0, 0, 4096, 0, 0, 0, 4096, 4096, 4096, 4096] {
        g.mtx_mult_4x3(w);
    }
    assert_eq!(g.state.mtx.modelview_mtx.m[3], [8192, 8192, 8192, 4096]);
    for w in [4096u32, 0, 0, 0, 4096, 0, 0, 0, 4096] {
        g.mtx_mult_3x3(w);
    }
    assert_eq!(g.state.mtx.modelview_mtx.m[3], [8192, 8192, 8192, 4096]);
    for w in [16u32, 32, 48] {
        g.mtx_trans(w);
    }
    assert_eq!(g.state.mtx.modelview_mtx.m[3], [8192 + 32, 8192 + 64, 8192 + 96, 4096]);
    assert_eq!(g.read_vec_mtx(0), 4096);
    assert_eq!(g.read_vec_mtx(4 * 9), 0);
}

#[test]
fn mtx_set_copies_the_lanes() {
    let mut a = Mtx::new_zero();
    let b = Mtx { m: [[1, 2, 3, 4], [5, 6, 7, 8], [9, 10, 11, 12], [13, 14, 15, 16]] };
    a.set(&b);
    assert_eq!(a.m, b.m);
}

#[test]
fn gathered_matrix_can_be_multiplied_in_again() {
    let mut g = Gpu3D::new();
    g.set_mtx_mode(2);
    for w in [8192u32, 0, 0, 0, 0, 8192, 0, 0, 0, 0, 8192, 0, 0, 0, 0, 4096] {
        g.mtx_mult_4x4(w);
    }
    assert_eq!(g.state.mtx.vector_mtx.m[1], [0, 8192, 0, 0]);
    g.mtx_mult(false);
    assert_eq!(g.state.mtx.modelview_mtx.m[0], [16384, 0, 0, 0]);
    assert_eq!(g.state.mtx.vector_mtx.m[0], [8192, 0, 0, 0]);
    g.mtx_mult(true);
    assert_eq!(g.state.mtx.vector_mtx.m[0], [16384, 0, 0, 0]);
    g.update_clip_mtx();
    assert_eq!(g.state.mtx.clip_mtx.m[0][0], 32768);
}
