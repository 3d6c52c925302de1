use corgi_gpu::gpu3d::{Gpu3D, Vertex};

fn vertex(x: i32, y: i32, z: i32, w: i32) -> Vertex {
    Vertex {
        coords: [x, y, z, w],
        colors: [x & 31, y & 31, z & 31],
        final_colors: [1, 2, 3],
        clipped: false,
        texcoords: [x, y],
    }
}

fn same(a: &Vertex, b: &Vertex) -> bool {
    a.coords == b.coords
        && a.colors == b.colors
        && a.final_colors == b.final_colors
        && a.clipped == b.clipped
        && a.texcoords == b.texcoords
}

#[test]
fn triangle_inside_the_volume_is_unchanged() {
    let ring = vec![
        vertex(-2048, -2048, 0, 4096),
        vertex(2048, -2048, 10, 4096),
        vertex(0, 4096, -4096, 4096),
    ];
    let out = Gpu3D::clip(&ring, 0, true);
    assert_eq!(out.len(), 3);
    for i in 0..3 {
        assert!(same(&out[i], &ring[i]));
    }
}

#[test]
fn triangle_beyond_one_plane_is_dropped() {
    for axis in 0..3 {
        for side in [1i32, -1] {
            let mut ring = vec![
                vertex(0, 0, 0, 4096),
                vertex(100, 0, 0, 4096),
                vertex(0, 100, 0, 4096),
            ];
            for (k, v) in ring.iter_mut().enumerate() {
                v.coords[axis] = side * (5000 + k as i32);
            }
            assert_eq!(Gpu3D::clip(&ring, 0, true).len(), 0);
        }
    }
}

#[test]
fn clipping_never_leaves_more_than_ten_vertices() {
    let mut seed: u32 = 12345;
    let mut next = move || {
        seed = seed.wrapping_mul(1664525).wrapping_add(1013904223);
        ((seed >> 8) % 20001) as i32 - 10000
    };
    for _ in 0..500 {
        let n = 3 + (next().unsigned_abs() as usize % 2);
        let mut ring = Vec::new();
        for _ in 0..n {
            ring.push(vertex(next(), next(), next(), 4096));
        }
        let out = Gpu3D::clip(&ring, 0, true);
        assert!(out.len() <= 10);
    }
    let long: Vec<Vertex> = (0..11).map(|i| vertex(i, 0, 0, 4096)).collect();
    assert_eq!(Gpu3D::clip(&long, 0, true).len(), 0);
}

#[test]
fn edge_crossing_is_interpolated_exactly() {
    let v_in = Vertex {
        coords: [0, 0, 0, 4096],
        colors: [0, 10, 31],
        final_colors: [0, 10, 31],
        clipped: false,
        texcoords: [0, 160],
    };
    let v_out = Vertex {
        coords: [8192, 4096, -4096, 4096],
        colors: [31, 20, 0],
        final_colors: [31, 20, 0],
        clipped: false,
        texcoords: [320, 0],
    };
    let cut = Gpu3D::clip_vertex(0, &v_out, &v_in, 1, true);
    assert_eq!(cut.coords, [4096, 2048, -2048, 4096]);
    assert_eq!(cut.colors, [15, 15, 15]);
    assert_eq!(cut.final_colors, [15, 15, 15]);
    assert_eq!(cut.texcoords, [160, 80]);
    assert!(cut.clipped);
    let plain = Gpu3D::clip_vertex(0, &v_out, &v_in, 1, false);
    assert_eq!(plain.coords, [4096, 2048, -2048, 4096]);
    assert_eq!(plain.colors, v_out.colors);
    assert_eq!(plain.texcoords, v_out.texcoords);
}

#[test]
fn triangle_across_one_plane_becomes_a_quadrilateral() {
    let ring = vec![
        vertex(0, 0, 0, 4096),
        vertex(8192, 0, 0, 4096),
        vertex(0, 4096, 0, 4096),
    ];
    let out = Gpu3D::clip_plane(0, &ring, 0, true);
    assert_eq!(out.len(), 4);
    assert_eq!(out[0].coords, [0, 0, 0, 4096]);
    assert_eq!(out[1].coords, [4096, 0, 0, 4096]);
    assert_eq!(out[2].coords, [4096, 2048, 0, 4096]);
    assert_eq!(out[3].coords, [0, 4096, 0, 4096]);
    let all = Gpu3D::clip(&ring, 0, true);
    assert_eq!(all.len(), 4);
    for v in all.iter() {
        assert!(v.coords[0] <= v.coords[3] && -v.coords[0] <= v.coords[3]);
    }
}

#[test]
fn vertices_before_clip_start_are_kept() {
    let ring = vec![
        vertex(8192, 0, 0, 4096),
        vertex(0, 0, 0, 4096),
        vertex(0, 4096, 0, 4096),
    ];
    let out = Gpu3D::clip_plane(0, &ring, 1, true);
    assert_eq!(out.len(), 3);
    assert_eq!(out[0].coords, [8192, 0, 0, 4096]);
}

fn bare(x: i32, y: i32, z: i32, w: i32) -> Vertex {
    Vertex { coords: [x, y, z, w], colors: [0; 3], final_colors: [0; 3], clipped: false, texcoords: [0; 2] }
}

#[test]
fn clipped_vertices_lie_between_the_planes_that_are_cut_by_last() {
    // Rounding in the cut by an x plane takes one vertex a unit past the
    // plane at y = -w, which was cut by before; the x planes hold.
    let ring = vec![bare(-4, -3, 1, 3), bare(4, 4, 0, 4), bare(4, -1, -1, 1)];
    let out = Gpu3D::clip(&ring, 0, false);
    let coords: Vec<[i32; 4]> = out.iter().map(|v| v.coords).collect();
    assert_eq!(
        coords,
        vec![[-2, -3, 0, 2], [-3, -3, 0, 3], [4, 4, 0, 4], [4, 4, 0, 4], [1, -2, -1, 1]]
    );
    for v in out.iter() {
        assert!(v.coords[3] >= 0);
        assert!(-v.coords[3] <= v.coords[0] && v.coords[0] <= v.coords[3]);
    }
    let mut seed: u32 = 99;
    let mut next = move || {
        seed = seed.wrapping_mul(1664525).wrapping_add(1013904223);
        ((seed >> 8) % 41) as i32 - 20
    };
    for _ in 0..2000 {
        let ring: Vec<Vertex> = (0..3).map(|_| bare(next(), next(), next(), next())).collect();
        for v in Gpu3D::clip(&ring, 0, true).iter() {
            if v.coords[3] >= 0 {
                assert!(-v.coords[3] <= v.coords[0] && v.coords[0] <= v.coords[3]);
            }
        }
    }
}
