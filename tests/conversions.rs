use pose_bridge::dim2;
use pose_bridge::dim3;
use pose_bridge::{Quaternion, Vector2, Vector3};

fn mul(a: f32, b: f32) -> f32 {
    a * b
}

fn div(a: f32, b: f32) -> f32 {
    a / b
}

fn identity3() -> dim3::Transform<f32> {
    dim3::Transform {
        translation: Vector3::new(0.0, 0.0, 0.0),
        rotation: Quaternion::from_xyzw(0.0, 0.0, 0.0, 1.0),
        scale: Vector3::new(1.0, 1.0, 1.0),
    }
}

fn identity2() -> dim2::Transform<f32> {
    dim2::Transform {
        translation: Vector2::new(0.0, 0.0),
        depth: 0.0,
        rotation: 0.0,
        scale: Vector2::new(1.0, 1.0),
    }
}

fn normalize(q: Quaternion<f32>) -> Quaternion<f32> {
    let len = (q.x * q.x + q.y * q.y + q.z * q.z + q.w * q.w).sqrt();
    let inv = 1.0 / len;
    Quaternion::from_xyzw(q.x * inv, q.y * inv, q.z * inv, q.w * inv)
}

#[test]
fn convert_back_to_equal_transform() {
    let transform = dim3::Transform {
        translation: Vector3::new(-2.1855694e-8, 0.0, 0.0),
        rotation: normalize(Quaternion::from_xyzw(0.99999994, 0.0, 1.6292068e-7, 0.0)),
        ..identity3()
    };
    let converted_transform = dim3::iso_to_transform(
        &dim3::transform_to_iso(&transform, 1.0, div),
        1.0,
        mul,
        &identity3(),
    );
    assert_eq!(converted_transform, transform);
}

#[test]
fn scenario_3d_scale_two() {
    let iso = dim3::Isometry {
        translation: Vector3::new(1.0, 2.0, 3.0),
        rotation: Quaternion::from_xyzw(0.0, 0.0, 0.0, 1.0),
    };
    let t = dim3::iso_to_transform(&iso, 2.0, mul, &identity3());
    assert_eq!(t.translation, Vector3::new(2.0, 4.0, 6.0));
    assert_eq!(t.rotation, Quaternion::from_xyzw(0.0, 0.0, 0.0, 1.0));
    assert_eq!(t.scale, Vector3::new(1.0, 1.0, 1.0));
    let back = dim3::transform_to_iso(&t, 2.0, div);
    assert_eq!(back.translation, Vector3::new(1.0, 2.0, 3.0));
    assert_eq!(back, iso);
}

#[test]
fn scenario_2d_half_scale() {
    let angle = std::f32::consts::FRAC_PI_2;
    let iso = dim2::Isometry { translation: Vector2::new(1.0, 0.0), angle };
    let t = dim2::iso_to_transform(&iso, 0.5, mul, &identity2());
    assert_eq!(t.translation, Vector2::new(0.5, 0.0));
    assert_eq!(t.rotation, angle);
    assert_eq!(t.depth, 0.0);
    assert_eq!(t.scale, Vector2::new(1.0, 1.0));
}

#[test]
fn transform_to_iso_divides_2d() {
    let t = dim2::Transform {
        translation: Vector2::new(3.0, -5.0),
        depth: 7.0,
        rotation: 0.25,
        scale: Vector2::new(2.0, 4.0),
    };
    let iso = dim2::transform_to_iso(&t, 4.0, div);
    assert_eq!(iso.translation, Vector2::new(0.75, -1.25));
    assert_eq!(iso.angle, 0.25);
}

#[test]
fn pose_round_trip_3d() {
    let iso = dim3::Isometry {
        translation: Vector3::new(0.5, -1.5, 8.0),
        rotation: Quaternion::from_xyzw(0.5, 0.5, 0.5, 0.5),
    };
    let t = dim3::iso_to_transform(&iso, 4.0, mul, &identity3());
    assert_eq!(t.translation, Vector3::new(2.0, -6.0, 32.0));
    assert_eq!(dim3::transform_to_iso(&t, 4.0, div), iso);
}

#[test]
fn pose_round_trip_2d_within_tolerance() {
    let iso = dim2::Isometry { translation: Vector2::new(0.1, 0.7), angle: 1.3 };
    let s = 0.3;
    let back = dim2::transform_to_iso(&dim2::iso_to_transform(&iso, s, mul, &identity2()), s, div);
    assert!((back.translation.x - 0.1).abs() <= 1e-6);
    assert!((back.translation.y - 0.7).abs() <= 1e-6);
    assert_eq!(back.angle, 1.3);
}

#[test]
fn transform_round_trip_resets_scale() {
    let t = dim3::Transform {
        translation: Vector3::new(10.0, 20.0, -30.0),
        rotation: Quaternion::from_xyzw(0.0, 1.0, 0.0, 0.0),
        scale: Vector3::new(3.0, 3.0, 3.0),
    };
    let back = dim3::iso_to_transform(&dim3::transform_to_iso(&t, 10.0, div), 10.0, mul, &identity3());
    assert_eq!(back.translation, t.translation);
    assert_eq!(back.rotation, t.rotation);
    assert_eq!(back.scale, Vector3::new(1.0, 1.0, 1.0));
}

#[test]
fn transform_round_trip_resets_depth_2d() {
    let t = dim2::Transform {
        translation: Vector2::new(6.0, -2.0),
        depth: 5.0,
        rotation: -0.5,
        scale: Vector2::new(0.5, 0.5),
    };
    let back = dim2::iso_to_transform(&dim2::transform_to_iso(&t, 2.0, div), 2.0, mul, &identity2());
    assert_eq!(back.translation, t.translation);
    assert_eq!(back.rotation, t.rotation);
    assert_eq!(back.depth, 0.0);
    assert_eq!(back.scale, Vector2::new(1.0, 1.0));
}

#[test]
fn unit_scale_keeps_translation() {
    let iso = dim3::Isometry {
        translation: Vector3::new(1.25, -7.5, 1e-9),
        rotation: Quaternion::from_xyzw(0.0, 0.0, 0.6, 0.8),
    };
    let t = dim3::iso_to_transform(&iso, 1.0, mul, &identity3());
    assert_eq!(t.translation, iso.translation);
    assert_eq!(t.rotation, iso.rotation);
    let back = dim3::transform_to_iso(&t, 1.0, div);
    assert_eq!(back.translation, iso.translation);
    let iso2 = dim2::Isometry { translation: Vector2::new(-3.5, 0.125), angle: 2.0 };
    let t2 = dim2::iso_to_transform(&iso2, 1.0, mul, &identity2());
    assert_eq!(t2.translation, iso2.translation);
    assert_eq!(dim2::transform_to_iso(&t2, 1.0, div), iso2);
}

#[test]
fn identity_rotation_kept_both_ways() {
    let identity = Quaternion::from_xyzw(0.0, 0.0, 0.0, 1.0);
    let iso = dim3::Isometry { translation: Vector3::new(4.0, 5.0, 6.0), rotation: identity };
    assert_eq!(dim3::iso_to_transform(&iso, 3.0, mul, &identity3()).rotation, identity);
    let t = dim3::Transform { translation: Vector3::new(4.0, 5.0, 6.0), ..identity3() };
    assert_eq!(dim3::transform_to_iso(&t, 3.0, div).rotation, identity);
    let iso2 = dim2::Isometry { translation: Vector2::new(1.0, 1.0), angle: 0.0 };
    assert_eq!(dim2::iso_to_transform(&iso2, 3.0, mul, &identity2()).rotation, 0.0);
    assert_eq!(dim2::transform_to_iso(&identity2(), 3.0, div).angle, 0.0);
}

#[test]
fn translation_scales_linearly() {
    let rotation = Quaternion::from_xyzw(0.0, 0.0, 0.0, 1.0);
    let a = dim3::Isometry { translation: Vector3::new(1.0, 2.0, 3.0), rotation };
    let b = dim3::Isometry { translation: Vector3::new(4.0, -1.0, 0.5), rotation };
    let sum = dim3::Isometry { translation: Vector3::new(5.0, 1.0, 3.5), rotation };
    let doubled = dim3::Isometry { translation: Vector3::new(2.0, 4.0, 6.0), rotation };
    let ta = dim3::iso_to_transform(&a, 2.0, mul, &identity3());
    let tb = dim3::iso_to_transform(&b, 2.0, mul, &identity3());
    let ts = dim3::iso_to_transform(&sum, 2.0, mul, &identity3());
    let td = dim3::iso_to_transform(&doubled, 2.0, mul, &identity3());
    assert_eq!(ts.translation.x, ta.translation.x + tb.translation.x);
    assert_eq!(ts.translation.y, ta.translation.y + tb.translation.y);
    assert_eq!(ts.translation.z, ta.translation.z + tb.translation.z);
    assert_eq!(td.translation, Vector3::new(4.0, 8.0, 12.0));
    assert_eq!(td.translation.x, 2.0 * ta.translation.x);
}

#[test]
fn neutral_transform_supplies_visual_fields() {
    let neutral = dim2::Transform {
        translation: Vector2::new(9.0, 9.0),
        depth: -1.0,
        rotation: 3.0,
        scale: Vector2::new(2.0, 2.0),
    };
    let iso = dim2::Isometry { translation: Vector2::new(1.0, 2.0), angle: 0.5 };
    let t = dim2::iso_to_transform(&iso, 10.0, mul, &neutral);
    assert_eq!(t.translation, Vector2::new(10.0, 20.0));
    assert_eq!(t.rotation, 0.5);
    assert_eq!(t.depth, -1.0);
    assert_eq!(t.scale, Vector2::new(2.0, 2.0));
}
