use cgmath::Deg;
use cgmath::InnerSpace;
use cgmath::Matrix4;
use cgmath::Point3;
use cgmath::Rad;
use cgmath::Vector3;
use cgmath::Vector4;
use cgmath::perspective;
use cgmath::vec3;

use render_harness::ModelTransform;
use render_harness::ProjectionTransform;
use render_harness::RotationAxis;
use render_harness::TransformError;
use render_harness::TransformSet;
use render_harness::Vec3Bits;
use render_harness::build_transforms;
use render_harness::F32_FAR_PLANE_BITS;
use render_harness::F32_HALF_BITS;
use render_harness::F32_NEAR_PLANE_BITS;
use render_harness::F32_NEG_THREE_BITS;
use render_harness::F32_ONE_BITS;
use render_harness::F32_THREE_BITS;
use render_harness::F32_ZERO_BITS;

fn vec3_of(bits: Vec3Bits) -> Vector3<f32> {
    vec3(f32::from_bits(bits.x), f32::from_bits(bits.y), f32::from_bits(bits.z))
}

/// The matrix the shell builds from a model description: translate the
/// pivot in, rotate by the angle in degrees around the axis, translate out.
fn model_matrix(m: &ModelTransform) -> Matrix4<f32> {
    let pivot = vec3_of(m.pivot);
    let angle = Rad(std::f32::consts::PI * (m.angle_degrees as f32) / 180.0);
    let rotation = match m.axis {
        RotationAxis::YAxis => Matrix4::from_angle_y(angle),
        RotationAxis::ZAxis => Matrix4::from_angle_z(angle),
    };
    Matrix4::from_translation(pivot) * rotation * Matrix4::from_translation(-pivot)
}

fn projection_matrix(p: &ProjectionTransform) -> Matrix4<f32> {
    perspective(
        Deg(p.fov_y_degrees as f32),
        p.viewport_width as f32 / p.viewport_height as f32,
        f32::from_bits(p.near_bits),
        f32::from_bits(p.far_bits),
    )
}

fn view_matrix(t: &TransformSet) -> Matrix4<f32> {
    let eye = vec3_of(t.view.eye);
    let target = vec3_of(t.view.target);
    let up = vec3_of(t.view.up);
    Matrix4::look_at_rh(
        Point3::new(eye.x, eye.y, eye.z),
        Point3::new(target.x, target.y, target.z),
        up,
    )
}

fn assert_matrices_close(a: Matrix4<f32>, b: Matrix4<f32>, tolerance: f32) {
    let ca: &[f32; 16] = a.as_ref();
    let cb: &[f32; 16] = b.as_ref();
    for i in 0..16 {
        assert!(
            (ca[i] - cb[i]).abs() <= tolerance,
            "entry {} differs: {} vs {}",
            i,
            ca[i],
            cb[i]
        );
    }
}

#[test]
fn bit_constants_are_the_intended_floats() {
    assert_eq!(f32::from_bits(F32_ZERO_BITS), 0.0f32);
    assert_eq!(f32::from_bits(F32_HALF_BITS), 0.5f32);
    assert_eq!(f32::from_bits(F32_ONE_BITS), 1.0f32);
    assert_eq!(f32::from_bits(F32_THREE_BITS), 3.0f32);
    assert_eq!(f32::from_bits(F32_NEG_THREE_BITS), -3.0f32);
    assert_eq!(f32::from_bits(F32_NEAR_PLANE_BITS), 0.1f32);
    assert_eq!(f32::from_bits(F32_FAR_PLANE_BITS), 100.0f32);
}

#[test]
fn transforms_are_deterministic_and_pure() {
    let camera = Vec3Bits { x: F32_THREE_BITS, y: F32_NEG_THREE_BITS, z: F32_THREE_BITS };
    let a = build_transforms(41, camera);
    let b = build_transforms(41, camera);
    assert_eq!(a, b);
    // The matrices computed from the two descriptions are bit-identical.
    assert_eq!(model_matrix(&a.model), model_matrix(&b.model));
    assert_eq!(view_matrix(&a), view_matrix(&b));
    assert_eq!(projection_matrix(&a.projection), projection_matrix(&b.projection));
}

#[test]
fn transform_descriptions_match_the_fixed_scene() {
    let camera = Vec3Bits { x: F32_THREE_BITS, y: F32_NEG_THREE_BITS, z: F32_THREE_BITS };
    let t = build_transforms(0, camera);
    assert_eq!(t.model.angle_degrees, 0);
    assert_eq!(t.model.axis, RotationAxis::ZAxis);
    assert_eq!(vec3_of(t.model.pivot), vec3(0.5, 0.5, 0.0));
    assert_eq!(vec3_of(t.view.eye), vec3(3.0, -3.0, 3.0));
    assert_eq!(vec3_of(t.view.target), vec3(0.5, 0.5, 0.5));
    assert_eq!(vec3_of(t.view.up), vec3(0.0, 0.0, 1.0));
    assert_eq!(t.projection.fov_y_degrees, 45);
    assert_eq!(t.projection.viewport_width, 900);
    assert_eq!(t.projection.viewport_height, 480);
}

#[test]
fn rotation_advances_one_degree_per_frame() {
    let camera = Vec3Bits { x: F32_THREE_BITS, y: F32_NEG_THREE_BITS, z: F32_THREE_BITS };
    for n in [0u32, 1, 59, 359, 360, 1000] {
        let cur = build_transforms(n, camera).model;
        let next = build_transforms(n + 1, camera).model;
        assert_eq!(next.angle_degrees, cur.angle_degrees + 1);
        assert_eq!(next.pivot, cur.pivot);
        assert_eq!(next.axis, cur.axis);
        // As matrices: one more degree about the pivot, within float
        // tolerance.
        let one_degree_about_pivot = model_matrix(&ModelTransform {
            pivot: cur.pivot,
            axis: cur.axis,
            angle_degrees: 1,
        });
        assert_matrices_close(
            model_matrix(&next),
            model_matrix(&cur) * one_degree_about_pivot,
            1.0e-4,
        );
    }
}

#[test]
fn perspective_maps_near_and_far_to_clip_bounds() {
    let t = build_transforms(0, Vec3Bits { x: 0, y: 0, z: 0 });
    let p = projection_matrix(&t.projection);
    let near = f32::from_bits(t.projection.near_bits);
    let far = f32::from_bits(t.projection.far_bits);
    // Right-handed eye space looks down -z; the clip convention maps the
    // near plane to -1 and the far plane to +1 after the divide.
    let at_near = p * Vector4::new(0.0, 0.0, -near, 1.0);
    assert!((at_near.z / at_near.w - (-1.0)).abs() <= 1.0e-5);
    let at_far = p * Vector4::new(0.0, 0.0, -far, 1.0);
    assert!((at_far.z / at_far.w - 1.0).abs() <= 1.0e-4);
}

#[test]
fn view_looks_from_eye_toward_target() {
    let camera = Vec3Bits { x: F32_THREE_BITS, y: F32_NEG_THREE_BITS, z: F32_THREE_BITS };
    let t = build_transforms(0, camera);
    let v = view_matrix(&t);
    // The eye maps to the origin of eye space.
    let eye = vec3_of(t.view.eye);
    let mapped_eye = v * Vector4::new(eye.x, eye.y, eye.z, 1.0);
    assert!(mapped_eye.truncate().magnitude() <= 1.0e-5);
    // The target lies straight ahead: on the -z axis of eye space.
    let target = vec3_of(t.view.target);
    let mapped_target = v * Vector4::new(target.x, target.y, target.z, 1.0);
    assert!(mapped_target.x.abs() <= 1.0e-5);
    assert!(mapped_target.y.abs() <= 1.0e-5);
    assert!(mapped_target.z < 0.0);
}

#[test]
fn projection_rejects_degenerate_inputs() {
    let ok = ProjectionTransform::new(45, 900, 480, F32_NEAR_PLANE_BITS, F32_FAR_PLANE_BITS);
    assert!(ok.is_ok());
    let r = ProjectionTransform::new(0, 900, 480, F32_NEAR_PLANE_BITS, F32_FAR_PLANE_BITS);
    assert_eq!(r.unwrap_err(), TransformError::DegenerateFieldOfView);
    let r = ProjectionTransform::new(180, 900, 480, F32_NEAR_PLANE_BITS, F32_FAR_PLANE_BITS);
    assert_eq!(r.unwrap_err(), TransformError::DegenerateFieldOfView);
    let r = ProjectionTransform::new(45, 900, 0, F32_NEAR_PLANE_BITS, F32_FAR_PLANE_BITS);
    assert_eq!(r.unwrap_err(), TransformError::EmptyViewport);
    let r = ProjectionTransform::new(45, 900, 480, F32_NEAR_PLANE_BITS, F32_NEAR_PLANE_BITS);
    assert_eq!(r.unwrap_err(), TransformError::EqualClipPlanes);
}
