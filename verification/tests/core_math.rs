use character_control::character_body::CharacterBody;
use character_control::math::{div_trunc, isqrt, Vec3};
use character_control::settings::CameraSettings;

#[test]
fn isqrt_small_values() {
    assert_eq!(isqrt(0), 0);
    assert_eq!(isqrt(1), 1);
    assert_eq!(isqrt(2), 1);
    assert_eq!(isqrt(3), 1);
    assert_eq!(isqrt(4), 2);
    assert_eq!(isqrt(8), 2);
    assert_eq!(isqrt(9), 3);
}

#[test]
fn isqrt_larger_values() {
    assert_eq!(isqrt(999999), 999);
    assert_eq!(isqrt(1000000), 1000);
    assert_eq!(isqrt(2000000), 1414);
    assert_eq!(isqrt(4503599627370495), 67108863);
}

#[test]
fn div_trunc_rounds_toward_zero() {
    assert_eq!(div_trunc(7, 2), 3);
    assert_eq!(div_trunc(-7, 2), -3);
    assert_eq!(div_trunc(9, 10), 0);
    assert_eq!(div_trunc(-9, 10), 0);
    assert_eq!(div_trunc(0, 5), 0);
}

#[test]
fn vector_norm_of_three_four_triangle() {
    let v = Vec3::new(3000, 4000, 0);
    assert_eq!(v.norm(), 5000);
}

#[test]
fn normalize_zero_vector_is_none() {
    let v = Vec3::zero();
    assert!(v.try_normalize().is_none());
}

#[test]
fn normalize_axis_vector_is_itself() {
    let v = Vec3::new(0, 0, -1000);
    let n = v.try_normalize().unwrap();
    assert_eq!(n, Vec3::new(0, 0, -1000));
}

#[test]
fn normalize_diagonal_vector() {
    let v = Vec3::new(1000, 0, 1000);
    let n = v.try_normalize().unwrap();
    // norm is isqrt(2_000_000) = 1414; each component is 1_000_000 / 1414.
    assert_eq!(n, Vec3::new(707, 0, 707));
}

#[test]
fn vector_sum_and_difference() {
    let a = Vec3::new(1, 2, 3);
    let b = Vec3::new(10, -20, 30);
    assert_eq!(a.plus(&b), Vec3::new(11, -18, 33));
    assert_eq!(a.minus(&b), Vec3::new(-9, 22, -27));
}

#[test]
fn ground_contact_needs_a_steep_normal() {
    let body = CharacterBody::new(1, 2, 3, 4, (400, 1800));
    assert!(!body.has_ground_contact(&vec![]));
    // a wall contact: horizontal normal
    assert!(!body.has_ground_contact(&vec![Vec3::new(1000, 0, 0)]));
    // exactly at the threshold does not count
    assert!(!body.has_ground_contact(&vec![Vec3::new(0, 700, 0)]));
    // just above the threshold counts
    assert!(body.has_ground_contact(&vec![Vec3::new(0, 701, 0)]));
    // one steep normal among flat ones is enough
    assert!(body.has_ground_contact(&vec![
        Vec3::new(1000, 0, 0),
        Vec3::new(0, 900, 100),
    ]));
}

#[test]
fn camera_offsets_become_vectors() {
    let cam = CameraSettings { offset: (100, 200, 300), hinge_offset: (-1, -2, -3) };
    assert_eq!(cam.get_offset(), Vec3::new(100, 200, 300));
    assert_eq!(cam.get_hinge_offset(), Vec3::new(-1, -2, -3));
}
