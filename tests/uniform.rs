use rust_terrain_codex::matrix::{identity, transpose};
use rust_terrain_codex::uniform::{
    CameraUniform, LightUniform, CAMERA_UNIFORM_BYTES, LIGHT_UNIFORM_BYTES,
};

fn sample(seed: f32) -> [[f32; 4]; 4] {
    let mut m = [[0.0f32; 4]; 4];
    for c in 0..4 {
        for r in 0..4 {
            m[c][r] = seed + (c * 4 + r) as f32;
        }
    }
    m
}

#[test]
fn transpose_swaps_rows_and_columns() {
    let m = sample(0.0);
    let t = transpose(&m);
    assert_eq!(t[0], [0.0, 4.0, 8.0, 12.0]);
    assert_eq!(t[3][1], 7.0);
    assert_eq!(transpose(&t), m);
}

#[test]
fn identity_has_ones_on_the_diagonal() {
    let m = identity(0.0f32, 1.0f32);
    for c in 0..4 {
        for r in 0..4 {
            assert_eq!(m[c][r], if c == r { 1.0 } else { 0.0 });
        }
    }
}

#[test]
fn new_camera_uniform_is_identity() {
    let u = CameraUniform::new(0.0f32, 1.0f32);
    let id = identity(0.0f32, 1.0f32);
    assert_eq!(u.view_position(), [0.0; 4]);
    assert_eq!(u.view(), id);
    assert_eq!(u.view_proj(), id);
    assert_eq!(u.inv_proj(), id);
    assert_eq!(u.inv_view(), id);
}

#[test]
fn update_sets_every_field_and_transposes_view() {
    let mut u = CameraUniform::new(0.0f32, 1.0f32);
    let (view, vp, ip) = (sample(1.0), sample(20.0), sample(40.0));
    u.update_view_proj([1.0, 2.0, 3.0, 1.0], view, vp, ip);
    assert_eq!(u.view_position(), [1.0, 2.0, 3.0, 1.0]);
    assert_eq!(u.view(), view);
    assert_eq!(u.view_proj(), vp);
    assert_eq!(u.inv_proj(), ip);
    assert_eq!(u.inv_view(), transpose(&view));
    assert_eq!(u.inv_view()[0][1], view[1][0]);
    assert_eq!(transpose(&u.inv_view()), u.view());
}

#[test]
fn update_twice_is_bit_identical() {
    let mut a = CameraUniform::new(0.0f32, 1.0f32);
    let (view, vp, ip) = (sample(1.5), sample(-3.0), sample(9.25));
    a.update_view_proj([0.5, 0.0, -2.0, 1.0], view, vp, ip);
    let first = (a.view_position(), a.view(), a.view_proj(), a.inv_proj(), a.inv_view());
    a.update_view_proj([0.5, 0.0, -2.0, 1.0], view, vp, ip);
    let second = (a.view_position(), a.view(), a.view_proj(), a.inv_proj(), a.inv_view());
    assert_eq!(first, second);
}

#[test]
fn light_uniform_keeps_values_and_zero_padding() {
    let l = LightUniform::new([2.0f32, 2.0, 2.0], [1.0f32, 0.5, 0.25]);
    assert_eq!(l.position(), [2.0, 2.0, 2.0]);
    assert_eq!(l.color(), [1.0, 0.5, 0.25]);
    assert_eq!(l.paddings(), (0, 0));
}

#[test]
fn uniform_sizes_are_sixteen_byte_multiples() {
    assert_eq!(CAMERA_UNIFORM_BYTES, 272);
    assert_eq!(LIGHT_UNIFORM_BYTES, 32);
    assert_eq!(CAMERA_UNIFORM_BYTES % 16, 0);
    assert_eq!(LIGHT_UNIFORM_BYTES % 16, 0);
}
