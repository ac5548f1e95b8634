//! The per-frame transform builder: a pure function from the frame counter
//! and the camera position to the model, view and projection transforms.
//!
//! The library describes each transform by the quantities that determine
//! it: the model transform by its pivot, axis and rotation angle in whole
//! degrees (the rotation advances by exactly one degree per frame), the
//! view transform by its look-at triple, and the projection by its field
//! of view, viewport and clip planes. Positions and clip distances are
//! carried as IEEE-754 single-precision bit patterns, so equality here is
//! bit-for-bit equality of the numbers the shell will compute with; the
//! unverified shell turns these descriptions into 4x4 matrices.

use vstd::prelude::*;

verus! {

/// Bit pattern of 0.0 in IEEE-754 single precision.
pub const F32_ZERO_BITS: u32 = 0;

/// Bit pattern of 0.5 in IEEE-754 single precision.
pub const F32_HALF_BITS: u32 = 0x3F000000;

/// Bit pattern of 1.0 in IEEE-754 single precision.
pub const F32_ONE_BITS: u32 = 0x3F800000;

/// Bit pattern of 3.0 in IEEE-754 single precision.
pub const F32_THREE_BITS: u32 = 0x40400000;

/// Bit pattern of -3.0 in IEEE-754 single precision.
pub const F32_NEG_THREE_BITS: u32 = 0xC0400000;

/// Bit pattern of 0.1 in IEEE-754 single precision: the near clip plane.
pub const F32_NEAR_PLANE_BITS: u32 = 0x3DCCCCCD;

/// Bit pattern of 100.0 in IEEE-754 single precision: the far clip plane.
pub const F32_FAR_PLANE_BITS: u32 = 0x42C80000;

/// Window width in pixels; with the height it fixes the aspect ratio.
pub const WINDOW_WIDTH: u32 = 900;

/// Window height in pixels.
pub const WINDOW_HEIGHT: u32 = 480;

/// Vertical field of view in whole degrees.
pub const FOV_Y_DEGREES: u32 = 45;

/// A three-component vector of IEEE-754 single-precision bit patterns.
/// The verified core never does arithmetic on these; it fixes which bits
/// the shell hands to the matrix library, so "identical inputs" means
/// bit-identical inputs.
#[derive(Clone, Copy, Debug, PartialEq, Eq, Structural)]
pub struct Vec3Bits {
    pub x: u32,
    pub y: u32,
    pub z: u32,
}

/// The axis the model spins around.
#[derive(Clone, Copy, Debug, PartialEq, Eq, Structural)]
pub enum RotationAxis {
    YAxis,
    ZAxis,
}

/// The model transform: translate the pivot to the origin, rotate
/// `angle_degrees` degrees around `axis`, translate back.
#[derive(Clone, Copy, Debug, PartialEq, Eq, Structural)]
pub struct ModelTransform {
    pub pivot: Vec3Bits,
    pub axis: RotationAxis,
    pub angle_degrees: u32,
}

/// The view transform: a right-handed look-at from `eye` toward `target`
/// with `up` as the vertical direction.
#[derive(Clone, Copy, Debug, PartialEq, Eq, Structural)]
pub struct ViewTransform {
    pub eye: Vec3Bits,
    pub target: Vec3Bits,
    pub up: Vec3Bits,
}

/// The projection transform: a standard right-handed perspective from a
/// vertical field of view in whole degrees, the viewport that fixes the
/// aspect ratio, and the two clip-plane distances as bit patterns.
#[derive(Clone, Copy, Debug, PartialEq, Eq, Structural)]
pub struct ProjectionTransform {
    pub fov_y_degrees: u32,
    pub viewport_width: u32,
    pub viewport_height: u32,
    pub near_bits: u32,
    pub far_bits: u32,
}

/// Why a projection description was rejected.
#[derive(Clone, Copy, Debug, PartialEq, Eq, Structural)]
pub enum TransformError {
    /// The field of view is 0 or at least 180 degrees: the frustum is flat.
    DegenerateFieldOfView,
    /// The viewport has no area, so the aspect ratio is undefined.
    EmptyViewport,
    /// The near and far clip planes coincide (as bit patterns), so the
    /// depth mapping is singular.
    EqualClipPlanes,
}

/// The model, view and projection transforms of one frame, recomputed
/// fully every frame and consumed immediately; nothing here persists.
#[derive(Clone, Copy, Debug, PartialEq, Eq, Structural)]
pub struct TransformSet {
    pub model: ModelTransform,
    pub view: ViewTransform,
    pub projection: ProjectionTransform,
}

/// The model transform of frame `frame_index`: the rotation angle in
/// degrees equals the frame index, around the fixed pivot (0.5, 0.5, 0.0)
/// and the z axis.
pub open spec fn model_transform_spec(frame_index: u32) -> ModelTransform {
    ModelTransform {
        pivot: Vec3Bits { x: F32_HALF_BITS, y: F32_HALF_BITS, z: F32_ZERO_BITS },
        axis: RotationAxis::ZAxis,
        angle_degrees: frame_index,
    }
}

/// The view transform: look from the camera position at the cube's center
/// (0.5, 0.5, 0.5) with z up.
pub open spec fn view_transform_spec(camera: Vec3Bits) -> ViewTransform {
    ViewTransform {
        eye: camera,
        target: Vec3Bits { x: F32_HALF_BITS, y: F32_HALF_BITS, z: F32_HALF_BITS },
        up: Vec3Bits { x: F32_ZERO_BITS, y: F32_ZERO_BITS, z: F32_ONE_BITS },
    }
}

/// The fixed projection: 45 degrees vertical field of view, the window's
/// aspect ratio, near plane 0.1 and far plane 100.
pub open spec fn projection_transform_spec() -> ProjectionTransform {
    ProjectionTransform {
        fov_y_degrees: FOV_Y_DEGREES,
        viewport_width: WINDOW_WIDTH,
        viewport_height: WINDOW_HEIGHT,
        near_bits: F32_NEAR_PLANE_BITS,
        far_bits: F32_FAR_PLANE_BITS,
    }
}

/// The complete transform set of one frame.
pub open spec fn transform_set_spec(frame_index: u32, camera: Vec3Bits) -> TransformSet {
    TransformSet {
        model: model_transform_spec(frame_index),
        view: view_transform_spec(camera),
        projection: projection_transform_spec(),
    }
}

/// What `ProjectionTransform::new` returns for every input.
pub open spec fn projection_new_spec(
    fov_y_degrees: u32,
    viewport_width: u32,
    viewport_height: u32,
    near_bits: u32,
    far_bits: u32,
) -> Result<ProjectionTransform, TransformError> {
    if fov_y_degrees == 0 || fov_y_degrees >= 180 {
        Err(TransformError::DegenerateFieldOfView)
    } else if viewport_width == 0 || viewport_height == 0 {
        Err(TransformError::EmptyViewport)
    } else if near_bits == far_bits {
        Err(TransformError::EqualClipPlanes)
    } else {
        Ok(
            ProjectionTransform {
                fov_y_degrees,
                viewport_width,
                viewport_height,
                near_bits,
                far_bits,
            },
        )
    }
}

impl ProjectionTransform {
    /// Builds a perspective description, rejecting exactly the boundary
    /// inputs on which the perspective matrix is singular or undefined: a
    /// field of view of 0 or at least 180 degrees, an empty viewport, and
    /// clip planes whose bit patterns coincide.
    pub fn new(
        fov_y_degrees: u32,
        viewport_width: u32,
        viewport_height: u32,
        near_bits: u32,
        far_bits: u32,
    ) -> (r: Result<ProjectionTransform, TransformError>)
        ensures
            r == projection_new_spec(fov_y_degrees, viewport_width, viewport_height, near_bits, far_bits),
    {
        if fov_y_degrees == 0 || fov_y_degrees >= 180 {
            Err(TransformError::DegenerateFieldOfView)
        } else if viewport_width == 0 || viewport_height == 0 {
            Err(TransformError::EmptyViewport)
        } else if near_bits == far_bits {
            Err(TransformError::EqualClipPlanes)
        } else {
            Ok(
                ProjectionTransform {
                    fov_y_degrees,
                    viewport_width,
                    viewport_height,
                    near_bits,
                    far_bits,
                },
            )
        }
    }
}

/// Builds the transform set of one frame from the frame counter and the
/// camera position: pure, with no owned state, so two calls on the same
/// inputs return the same value.
pub fn build_transforms(frame_index: u32, camera: Vec3Bits) -> (t: TransformSet)
    ensures
        t == transform_set_spec(frame_index, camera),
{
    TransformSet {
        model: ModelTransform {
            pivot: Vec3Bits { x: F32_HALF_BITS, y: F32_HALF_BITS, z: F32_ZERO_BITS },
            axis: RotationAxis::ZAxis,
            angle_degrees: frame_index,
        },
        view: ViewTransform {
            eye: camera,
            target: Vec3Bits { x: F32_HALF_BITS, y: F32_HALF_BITS, z: F32_HALF_BITS },
            up: Vec3Bits { x: F32_ZERO_BITS, y: F32_ZERO_BITS, z: F32_ONE_BITS },
        },
        projection: ProjectionTransform {
            fov_y_degrees: FOV_Y_DEGREES,
            viewport_width: WINDOW_WIDTH,
            viewport_height: WINDOW_HEIGHT,
            near_bits: F32_NEAR_PLANE_BITS,
            far_bits: F32_FAR_PLANE_BITS,
        },
    }
}

/// The frame counter after one tick: it increments and wraps at the
/// integer's width. Only the rotation angle depends on it, so the wrap
/// point carries no correctness weight.
pub open spec fn next_frame(frame_index: u32) -> u32 {
    if frame_index == u32::MAX {
        0u32
    } else {
        (frame_index + 1) as u32
    }
}

/// The fixed projection every frame uses is itself accepted by the
/// validity check: its field of view, viewport and clip planes are none
/// of the degenerate boundary cases.
pub proof fn lemma_fixed_projection_is_valid()
    ensures
        projection_new_spec(
            FOV_Y_DEGREES,
            WINDOW_WIDTH,
            WINDOW_HEIGHT,
            F32_NEAR_PLANE_BITS,
            F32_FAR_PLANE_BITS,
        ) == Ok::<ProjectionTransform, TransformError>(projection_transform_spec()),
{
}

/// The transform builder is deterministic and pure: calling it with
/// identical inputs yields identical (bit-for-bit) transform sets.
pub proof fn lemma_transforms_deterministic(
    frame_a: u32,
    camera_a: Vec3Bits,
    frame_b: u32,
    camera_b: Vec3Bits,
)
    requires
        frame_a == frame_b,
        camera_a == camera_b,
    ensures
        transform_set_spec(frame_a, camera_a) == transform_set_spec(frame_b, camera_b),
{
}

/// Rotation progression: the model transform of the next frame is the
/// model transform of this frame with exactly one more degree of rotation
/// around the same axis and pivot (wrapping with the frame counter).
pub proof fn lemma_rotation_progression(frame_index: u32, camera: Vec3Bits)
    ensures
        ({
            let cur = transform_set_spec(frame_index, camera).model;
            let next = transform_set_spec(next_frame(frame_index), camera).model;
            &&& next.pivot == cur.pivot
            &&& next.axis == cur.axis
            &&& next.angle_degrees == next_frame(cur.angle_degrees)
            &&& frame_index < u32::MAX ==> next.angle_degrees == cur.angle_degrees + 1
        }),
{
}

} // verus!
