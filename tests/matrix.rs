use scene_graph::fixed::{fixed_mul, vec4, Vec4, SCALE};
use scene_graph::matrix::{
    camera_view_matrix, compute_normal, cross_product, dot_product, identity_matrix, norm,
    normalize_vector, ortographic_matrix, perpective_matrix, rotation_matrix, rotation_matrix_z,
    scaling_matrix, translating_matrix, GLMatrix,
};

const S: i64 = SCALE;

fn sample() -> GLMatrix {
    GLMatrix::new([
        S, 2 * S, 0, 5 * S, //
        -S, 3 * S, 7, -4 * S, //
        0, 0, S / 2, 9, //
        0, 0, 0, S,
    ])
}

#[test]
fn translate_by_zero_keeps_matrix() {
    let m = sample();
    assert_eq!(m.translate(0, 0, 0), m);
}

#[test]
fn scale_by_one_keeps_matrix() {
    let m = sample();
    assert_eq!(m.scale(S, S, S), m);
}

#[test]
fn translate_then_scale_maps_origin() {
    let m = identity_matrix().translate(S, 0, 0).scale(2 * S, 2 * S, 2 * S);
    let p = m.mul_vec(&vec4(0, 0, 0, S));
    assert_eq!(p, vec4(2 * S, 0, 0, S));
}

#[test]
fn new_reads_rows() {
    let m = sample();
    assert_eq!(m.c0, vec4(S, -S, 0, 0));
    assert_eq!(m.c3, vec4(5 * S, -4 * S, 9, S));
}

#[test]
fn translation_moves_points() {
    let m = translating_matrix(S, -2 * S, 3 * S);
    assert_eq!(m.mul_vec(&vec4(S, S, S, S)), vec4(2 * S, -S, 4 * S, S));
    assert_eq!(m.mul_vec(&vec4(S, S, S, 0)), vec4(S, S, S, 0));
}

#[test]
fn scaling_scales_axes() {
    let m = scaling_matrix(2 * S, S / 2, -S);
    assert_eq!(m.mul_vec(&vec4(3 * S, 4 * S, 5 * S, S)), vec4(6 * S, 2 * S, -5 * S, S));
}

#[test]
fn product_order_is_outer_first() {
    let a = translating_matrix(S, 0, 0);
    let b = scaling_matrix(2 * S, 2 * S, 2 * S);
    let p = vec4(S, 0, 0, S);
    assert_eq!(a.mul_mat(&b).mul_vec(&p), vec4(3 * S, 0, 0, S));
    assert_eq!(b.mul_mat(&a).mul_vec(&p), vec4(4 * S, 0, 0, S));
}

#[test]
fn fixed_mul_truncates_and_saturates() {
    assert_eq!(fixed_mul(1_500_000, -1_500_000), -2_250_000);
    assert_eq!(fixed_mul(1, 1), 0);
    assert_eq!(fixed_mul(-1, 1), 0);
    assert_eq!(fixed_mul(i64::MAX, 2 * S), i64::MAX);
    assert_eq!(fixed_mul(i64::MIN, 2 * S), i64::MIN);
}

#[test]
fn rotation_z_quarter_turn() {
    let m = rotation_matrix_z(0, S);
    assert_eq!(m.mul_vec(&vec4(S, 0, 0, S)), vec4(0, S, 0, S));
    assert_eq!(m.mul_vec(&vec4(0, 0, S, S)), vec4(0, 0, S, S));
}

#[test]
fn rotate_x_and_y_quarter_turns() {
    let id = identity_matrix();
    assert_eq!(id.rotate_x(0, S).mul_vec(&vec4(0, S, 0, 0)), vec4(0, 0, S, 0));
    assert_eq!(id.rotate_y(0, S).mul_vec(&vec4(0, 0, S, 0)), vec4(S, 0, 0, 0));
}

#[test]
fn rotation_about_z_axis_matches_rotation_z() {
    let axis = vec4(0, 0, 3 * S, 0);
    assert_eq!(rotation_matrix(0, S, &axis), rotation_matrix_z(0, S));
    assert_eq!(identity_matrix().rotate(0, S, &axis), rotation_matrix_z(0, S));
}

#[test]
fn norm_of_three_four_five() {
    assert_eq!(norm(&vec4(3 * S, 4 * S, 0, 0)), 5 * S);
    assert_eq!(norm(&vec4(0, 0, 0, S)), 0);
    assert_eq!(norm(&vec4(1, 1, 0, 0)), 1);
}

#[test]
fn normalize_scales_to_unit_length() {
    assert_eq!(normalize_vector(&vec4(3 * S, 4 * S, 0, 0)), vec4(600_000, 800_000, 0, 0));
    assert_eq!(normalize_vector(&vec4(0, 0, 0, 0)), vec4(0, 0, 0, 0));
    assert_eq!(normalize_vector(&vec4(0, 0, 0, 7)), vec4(0, 0, 0, 7));
}

#[test]
fn cross_of_axes() {
    let x = vec4(S, 0, 0, 0);
    let y = vec4(0, S, 0, 0);
    assert_eq!(cross_product(&x, &y), vec4(0, 0, S, 0));
    assert_eq!(cross_product(&y, &x), vec4(0, 0, -S, 0));
}

#[test]
fn dot_of_directions() {
    let u = vec4(S, 2 * S, 3 * S, 0);
    let v = vec4(4 * S, 5 * S, 6 * S, 0);
    assert_eq!(dot_product(&u, &v), 32 * S);
}

#[test]
fn normal_of_counter_clockwise_triangle() {
    let a = vec4(0, 0, 0, S);
    let b = vec4(S, 0, 0, S);
    let c = vec4(0, S, 0, S);
    assert_eq!(compute_normal(&a, &b, &c), vec4(0, 0, S, 0));
}

#[test]
fn ortographic_maps_box_to_unit_cube() {
    let m = ortographic_matrix(-2 * S, 2 * S, -S, S, -S, -3 * S);
    assert_eq!(m.mul_vec(&vec4(2 * S, S, -3 * S, S)), vec4(S, S, S, S));
    assert_eq!(m.mul_vec(&vec4(-2 * S, -S, -S, S)), vec4(-S, -S, -S, S));
}

#[test]
fn perpective_entries() {
    let m = perpective_matrix(S, S, -S, -10 * S);
    assert_eq!(m.c0, vec4(S, 0, 0, 0));
    assert_eq!(m.c1, vec4(0, S, 0, 0));
    assert_eq!(m.c2, vec4(0, 0, -1_222_220, -S));
    assert_eq!(m.c3, vec4(0, 0, -2_222_220, 0));
}

#[test]
fn camera_view_at_origin_is_identity() {
    let m = camera_view_matrix(&vec4(0, 0, 0, S), &vec4(0, 0, -S, 0), &vec4(0, S, 0, 0));
    assert_eq!(m, identity_matrix());
}

#[test]
fn camera_view_moves_world_against_camera() {
    let m = camera_view_matrix(&vec4(S, 2 * S, 3 * S, S), &vec4(0, 0, -S, 0), &vec4(0, S, 0, 0));
    assert_eq!(m.c3, Vec4 { x: -S, y: -2 * S, z: -3 * S, w: S });
    assert_eq!(m.mul_vec(&vec4(S, 2 * S, 3 * S, S)), vec4(0, 0, 0, S));
}
