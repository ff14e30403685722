use rasterizer::SCALE;
use rasterizer::math::{Vec3Fx, Vec4Fx, Mat4Fx, mat4_mul, mat4_mul_vec4};
use rasterizer::transform::{vs, to_raster};
use rasterizer::setup::{TriangleSetup, triangle_setup, evaluate_edge_function};
use rasterizer::frame::{Rgb, FrameStore};
use rasterizer::raster::{ColorPolicy, draw_triangle, render, Mesh, SceneObject};

fn v3(x: i128, y: i128, z: i128) -> Vec3Fx {
    Vec3Fx { x, y, z }
}

fn v4(x: i128, y: i128, z: i128, w: i128) -> Vec4Fx {
    Vec4Fx { x, y, z, w }
}

fn identity() -> Mat4Fx {
    Mat4Fx {
        r0: v4(SCALE, 0, 0, 0),
        r1: v4(0, SCALE, 0, 0),
        r2: v4(0, 0, SCALE, 0),
        r3: v4(0, 0, 0, SCALE),
    }
}

fn translation(tx: i128, ty: i128, tz: i128) -> Mat4Fx {
    Mat4Fx {
        r0: v4(SCALE, 0, 0, tx),
        r1: v4(0, SCALE, 0, ty),
        r2: v4(0, 0, SCALE, tz),
        r3: v4(0, 0, 0, SCALE),
    }
}

fn pixel(fb: &FrameStore, x: usize, y: usize) -> Rgb {
    fb.color[x + y * fb.width]
}

fn colored_count(fb: &FrameStore) -> usize {
    fb.color.iter().filter(|c| **c != Rgb { r: 0, g: 0, b: 0 }).count()
}

#[test]
fn tie_break_zero_vector_is_inside() {
    // A sample exactly on the edge line with e = (0, 0, 0): the e.x == 0
    // branch applies and e.y < 0 is false, so the sample is inside.
    assert!(evaluate_edge_function(&v3(0, 0, 0), 0, 0));
}

#[test]
fn tie_break_four_branches() {
    // All evaluate to exactly zero at pixel (0, 0); the coefficients decide.
    assert!(evaluate_edge_function(&v3(2, 0, -1), 0, 0)); // e.x > 0: inside
    assert!(!evaluate_edge_function(&v3(-2, 0, 1), 0, 0)); // e.x < 0: outside
    assert!(evaluate_edge_function(&v3(0, 2, -1), 0, 0)); // e.x == 0, e.y > 0: inside
    assert!(!evaluate_edge_function(&v3(0, -2, 1), 0, 0)); // e.x == 0, e.y < 0: outside
}

#[test]
fn edge_strict_sides() {
    assert!(evaluate_edge_function(&v3(1, 0, 0), 0, 0)); // result > 0
    assert!(!evaluate_edge_function(&v3(-1, 0, 0), 0, 0)); // result < 0
}

#[test]
fn tie_break_deterministic() {
    for _ in 0..3 {
        assert!(evaluate_edge_function(&v3(0, 0, 0), 5, 7));
        assert!(!evaluate_edge_function(&v3(-2, 0, 1), 0, 0));
    }
}

#[test]
fn frame_store_starts_black_and_far() {
    let fb = FrameStore::new(8, 4);
    assert_eq!(fb.color.len(), 32);
    assert_eq!(fb.depth.len(), 32);
    assert!(fb.color.iter().all(|c| *c == Rgb { r: 0, g: 0, b: 0 }));
    assert!(fb.depth.iter().all(|z| *z == 0));
}

#[test]
fn matrix_ops_exact() {
    let m = identity();
    let p = v4(123, -456, 789, SCALE);
    assert_eq!(mat4_mul_vec4(&m, &p), p);
    let mm = mat4_mul(&m, &m);
    assert_eq!(mm, m);
    let t = translation(100, 200, 300);
    let q = mat4_mul_vec4(&t, &v4(0, 0, 0, SCALE));
    assert_eq!(q, v4(100, 200, 300, SCALE));
}

#[test]
fn transform_and_screen_mapping() {
    let id = identity();
    let clip = vs(&v3(-2048, 2048, 4096), &id, &id, &id);
    assert_eq!(clip, v4(-2048, 2048, 4096, 4096));
    let r = to_raster(&clip, 800, 600);
    // 200 and 150 pixels, as fixed-point numerators.
    assert_eq!(r, v4(200 * SCALE, 150 * SCALE, 4096, 4096));
}

#[test]
fn setup_rejects_backface_and_inverts_frontface() {
    let a = v4(819200, 614400, 4096, 4096);
    let b = v4(2457600, 614400, 4096, 4096);
    let c = v4(1638400, 1843200, 4096, 4096);
    // This winding has a non-negative determinant: rejected.
    assert!(triangle_setup(&a, &b, &c).is_none());
    // The opposite winding is front-facing.
    let t = triangle_setup(&a, &c, &b).expect("front-facing");
    assert_eq!(t.d, 8246337208320000);
    assert_eq!(t.e0, v3(-5033164800, -3355443200, 3523215360000));
    assert_eq!(t.e1, v3(0, 6710886400, -1006632960000));
    assert_eq!(t.e2, v3(5033164800, -3355443200, -503316480000));
    assert_eq!(t.c, v3(0, 0, 2013265920000));
}

fn flat(d: i128, cz: i128) -> TriangleSetup {
    // Covers every pixel (each edge value is strictly positive) with a
    // constant weight numerator.
    TriangleSetup { e0: v3(1, 0, 0), e1: v3(1, 0, 0), e2: v3(1, 0, 0), c: v3(0, 0, cz), d }
}

#[test]
fn depth_test_last_write_wins_on_tie() {
    let palette = ColorPolicy::Palette {
        colors: vec![Rgb { r: 10, g: 0, b: 0 }, Rgb { r: 0, g: 20, b: 0 }],
    };
    let t = flat(1, 1); // weight = 2 * 4096 * 4096 / 2 everywhere
    let mut fb = FrameStore::new(2, 2);
    draw_triangle(&mut fb, &t, &palette, 0);
    assert_eq!(pixel(&fb, 0, 0), Rgb { r: 10, g: 0, b: 0 });
    assert_eq!(fb.depth[0], 16777216);
    // Equal weight: the later triangle wins the tie.
    draw_triangle(&mut fb, &t, &palette, 1);
    assert_eq!(pixel(&fb, 0, 0), Rgb { r: 0, g: 20, b: 0 });
    assert_eq!(fb.depth[0], 16777216);
}

#[test]
fn depth_test_monotonic() {
    let palette = ColorPolicy::Palette {
        colors: vec![Rgb { r: 10, g: 0, b: 0 }, Rgb { r: 0, g: 20, b: 0 }],
    };
    let near = flat(1, 2); // weight 33554432
    let far = flat(1, 1); // weight 16777216
    let mut fb = FrameStore::new(2, 2);
    draw_triangle(&mut fb, &near, &palette, 0);
    assert_eq!(fb.depth[0], 33554432);
    // A farther triangle drawn later loses everywhere.
    draw_triangle(&mut fb, &far, &palette, 1);
    assert_eq!(pixel(&fb, 0, 0), Rgb { r: 10, g: 0, b: 0 });
    assert_eq!(fb.depth[0], 33554432);
    // A nearer one drawn later wins.
    let nearer = flat(1, 3);
    draw_triangle(&mut fb, &nearer, &palette, 1);
    assert_eq!(pixel(&fb, 0, 0), Rgb { r: 0, g: 20, b: 0 });
    assert_eq!(fb.depth[0], 50331648);
}

fn single_triangle_scene(wind_front: bool) -> Vec<SceneObject> {
    let positions = vec![v3(-2048, 2048, 4096), v3(2048, 2048, 4096), v3(0, -2048, 4096)];
    let face = if wind_front { vec![0, 2, 1] } else { vec![0, 1, 2] };
    vec![SceneObject {
        model: identity(),
        mesh: Mesh { positions, faces: vec![face] },
    }]
}

#[test]
fn single_triangle_scenario() {
    // Model-space triangle (-0.5, 0.5, 1), (0.5, 0.5, 1), (0, -0.5, 1)
    // under the identity camera at 800x600: raster corners at
    // (200, 150), (600, 150), (400, 450); inside filled, outside black.
    let mut fb = FrameStore::new(800, 600);
    let scene = single_triangle_scene(true);
    let policy = ColorPolicy::Scaled { scale: 20055 };
    render(&mut fb, &identity(), &identity(), &scene, &policy);
    assert!(colored_count(&fb) > 0);
    // Interior pixels are covered and colored.
    assert_ne!(pixel(&fb, 400, 300), Rgb { r: 0, g: 0, b: 0 });
    assert!(fb.depth[400 + 300 * 800] > 0);
    // The top-left corner pixel is covered (fill rule), the far corners not.
    assert!(fb.depth[200 + 150 * 800] > 0);
    // Outside the extent everything stays black.
    for (x, y) in [(100usize, 300usize), (700, 300), (400, 500), (10, 10), (399, 449)] {
        assert_eq!(pixel(&fb, x, y), Rgb { r: 0, g: 0, b: 0 });
        assert_eq!(fb.depth[x + y * 800], 0);
    }
}

#[test]
fn backface_culling_is_total() {
    // The same triangle with the opposite winding touches nothing.
    let mut fb = FrameStore::new(800, 600);
    let scene = single_triangle_scene(false);
    let policy = ColorPolicy::Scaled { scale: 20055 };
    render(&mut fb, &identity(), &identity(), &scene, &policy);
    assert_eq!(colored_count(&fb), 0);
    assert!(fb.depth.iter().all(|z| *z == 0));
}

#[test]
fn non_triangular_faces_skipped() {
    let positions = vec![v3(-2048, 2048, 4096), v3(2048, 2048, 4096), v3(0, -2048, 4096)];
    let scene = vec![SceneObject {
        model: identity(),
        mesh: Mesh { positions, faces: vec![vec![0, 2, 1, 0], vec![0], Vec::new()] },
    }];
    let mut fb = FrameStore::new(64, 64);
    render(&mut fb, &identity(), &identity(), &scene, &ColorPolicy::Scaled { scale: 20055 });
    assert_eq!(colored_count(&fb), 0);
}

// A look-at view from eye (0, 0, 5) toward the origin with up (0, 1, 0):
// the identity rotation composed with a translation by -5 along z.
fn look_at_view() -> Mat4Fx {
    Mat4Fx {
        r0: v4(SCALE, 0, 0, 0),
        r1: v4(0, SCALE, 0, 0),
        r2: v4(0, 0, SCALE, -5 * SCALE),
        r3: v4(0, 0, 0, SCALE),
    }
}

// A standard perspective projection (vertical field of view 60 degrees,
// aspect 4:3, near 0.1, far 100), rounded to fixed point:
// f = 1/tan(30 deg) = 1.7320, f/aspect = 1.2990, (far+near)/(near-far)
// = -1.0020, 2*far*near/(near-far) = -0.2002.
fn perspective_proj() -> Mat4Fx {
    Mat4Fx {
        r0: v4(5321, 0, 0, 0),
        r1: v4(0, 7095, 0, 0),
        r2: v4(0, 0, -4104, -820),
        r3: v4(0, 0, -SCALE, 0),
    }
}

fn cube_mesh() -> (Vec<Vec3Fx>, Vec<Vec<usize>>) {
    let s = 1229;
    let positions = vec![
        v3(-s, -s, -s),
        v3(s, -s, -s),
        v3(s, s, -s),
        v3(-s, s, -s),
        v3(-s, -s, s),
        v3(s, -s, s),
        v3(s, s, s),
        v3(-s, s, s),
    ];
    let faces: Vec<Vec<usize>> = vec![
        vec![0, 2, 1],
        vec![0, 3, 2],
        vec![4, 5, 6],
        vec![4, 6, 7],
        vec![0, 4, 7],
        vec![0, 7, 3],
        vec![1, 2, 6],
        vec![1, 6, 5],
        vec![0, 1, 5],
        vec![0, 5, 4],
        vec![3, 7, 6],
        vec![3, 6, 2],
    ];
    (positions, faces)
}

fn cube_object(tx: i128) -> SceneObject {
    let (positions, faces) = cube_mesh();
    SceneObject { model: translation(tx, 0, 0), mesh: Mesh { positions, faces } }
}

#[test]
fn cube_scene_four_silhouettes() {
    // Four instances of the 8-vertex/12-triangle cube under the look-at
    // and perspective camera, at disjoint screen positions: the full
    // render shows exactly the four silhouettes, and each pixel's color
    // comes from the triangle that won its depth test.
    let offsets = [-7373i128, -2458, 2458, 7373];
    let policy = ColorPolicy::Palette {
        colors: (0..12).map(|i| Rgb { r: 40 + i as u8, g: 0, b: 0 }).collect(),
    };
    let view = look_at_view();
    let proj = perspective_proj();
    let mut total = 0usize;
    for tx in offsets {
        let mut fb = FrameStore::new(800, 600);
        render(&mut fb, &proj, &view, &vec![cube_object(tx)], &policy);
        let n = colored_count(&fb);
        assert!(n > 0);
        total += n;
    }
    let scene: Vec<SceneObject> = offsets.iter().map(|&tx| cube_object(tx)).collect();
    let mut fb = FrameStore::new(800, 600);
    render(&mut fb, &proj, &view, &scene, &policy);
    assert_eq!(colored_count(&fb), total);
}

#[test]
fn render_is_idempotent() {
    // The same scene from two freshly zeroed stores gives identical output.
    let scene = single_triangle_scene(true);
    let policy = ColorPolicy::Scaled { scale: 20055 };
    let id = identity();
    let mut fb1 = FrameStore::new(320, 200);
    let mut fb2 = FrameStore::new(320, 200);
    render(&mut fb1, &id, &id, &scene, &policy);
    render(&mut fb2, &id, &id, &scene, &policy);
    assert_eq!(fb1.color, fb2.color);
    assert_eq!(fb1.depth, fb2.depth);
}

#[test]
fn palette_color_indexed_by_triangle_number() {
    let palette = ColorPolicy::Palette {
        colors: vec![Rgb { r: 1, g: 0, b: 0 }, Rgb { r: 0, g: 2, b: 0 }],
    };
    let mut fb = FrameStore::new(1, 1);
    draw_triangle(&mut fb, &flat(1, 1), &palette, 5);
    // 5 % 2 == 1: the second palette entry.
    assert_eq!(pixel(&fb, 0, 0), Rgb { r: 0, g: 2, b: 0 });
}

#[test]
fn scaled_policy_clamps_channels() {
    // Weight numerators scaled far beyond 255 saturate.
    let t = TriangleSetup { e0: v3(0, 0, 1000), e1: v3(1, 0, 0), e2: v3(0, 0, 1), c: v3(0, 0, 1), d: 1 };
    let mut fb = FrameStore::new(1, 1);
    draw_triangle(&mut fb, &t, &ColorPolicy::Scaled { scale: 20055 }, 0);
    let c = pixel(&fb, 0, 0);
    assert_eq!(c.r, 255); // 2000 * 20055 / 2 clamps
    assert_eq!(c.g, 255); // 1 * 20055 / 2 = 10027 clamps
    assert_eq!(c.b, 255); // 2 * 20055 / 2 = 20055 clamps
}
