//! A minimal real-time rendering core: a verified description of GPU mesh
//! setup and drawing (vertex buffer layout plus attribute offsets), a pure
//! per-frame transform builder, and the frame-loop state machine that
//! sequences input handling, state changes, drawing and presentation.
//!
//! All GPU work is described as plain command values; an unverified shell
//! executes them against a real graphics context.

pub mod commands;
pub mod mesh;
pub mod state;
pub mod transform;

pub use commands::Capability;
pub use commands::FillMode;
pub use commands::GlCommand;
pub use commands::GlElementType;
pub use commands::UsageHint;
pub use mesh::MeshError;
pub use mesh::Vertex;
pub use mesh::VertexLayout;
pub use state::Event;
pub use state::FRAME_BUDGET_NANOS;
pub use state::KEYCODE_ESCAPE;
pub use state::FrameLoop;
pub use state::FrameOutput;
pub use state::Phase;
pub use state::PolledEvent;
pub use state::RenderState;
pub use state::TickOutcome;
pub use state::render_state_commands;
pub use transform::F32_FAR_PLANE_BITS;
pub use transform::F32_HALF_BITS;
pub use transform::F32_NEAR_PLANE_BITS;
pub use transform::F32_NEG_THREE_BITS;
pub use transform::F32_ONE_BITS;
pub use transform::F32_THREE_BITS;
pub use transform::F32_ZERO_BITS;
pub use transform::FOV_Y_DEGREES;
pub use transform::ModelTransform;
pub use transform::WINDOW_HEIGHT;
pub use transform::WINDOW_WIDTH;
pub use transform::ProjectionTransform;
pub use transform::RotationAxis;
pub use transform::TransformError;
pub use transform::TransformSet;
pub use transform::Vec3Bits;
pub use transform::ViewTransform;
pub use transform::build_transforms;
