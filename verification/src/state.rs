//! The frame loop: a state machine over the phases Init, Running,
//! ShuttingDown and Terminated, whose Running-phase tick sequences input
//! handling, render-state application, transform computation, the draw,
//! presentation and the frame-budget sleep.
//!
//! The loop itself (polling a window, executing commands, sleeping) is run
//! by an unverified shell. Each tick the shell hands in the drained event
//! queue, with the events the debug overlay claimed marked as such, and the
//! overlay's updated render state; it gets back either a full description
//! of the frame to render and present, or the decision to shut down.

use vstd::prelude::*;

use crate::commands::Capability;
use crate::commands::FillMode;
use crate::commands::GlCommand;
use crate::mesh::Vertex;
use crate::mesh::draw_commands_spec;
use crate::transform::TransformSet;
use crate::transform::Vec3Bits;
use crate::transform::F32_THREE_BITS;
use crate::transform::F32_NEG_THREE_BITS;
use crate::transform::WINDOW_WIDTH;
use crate::transform::WINDOW_HEIGHT;
use crate::transform::next_frame;
use crate::transform::transform_set_spec;
use crate::transform::build_transforms;

verus! {

/// Key code of the escape key, as the windowing library reports it.
pub const KEYCODE_ESCAPE: i32 = 27;

/// The fixed per-tick sleep: one sixtieth of a second, in nanoseconds.
/// This is fixed-sleep pacing, preserved as in the original design: the
/// sleep does not subtract the time the tick body already spent.
pub const FRAME_BUDGET_NANOS: u32 = 1_000_000_000 / 60;

/// One application-level input event.
#[derive(Clone, Copy, Debug, PartialEq, Eq, Structural)]
pub enum Event {
    /// The window was asked to close.
    Quit,
    /// A key went down.
    KeyDown { code: i32 },
    /// Any event the application does not interpret.
    Other,
}

/// An event as drained from the queue: the overlay may have claimed it,
/// and a claimed event must not be read as application input.
#[derive(Clone, Copy, Debug, PartialEq, Eq, Structural)]
pub struct PolledEvent {
    pub event: Event,
    pub claimed_by_overlay: bool,
}

/// The phases of the frame loop's life.
#[derive(Clone, Copy, Debug, PartialEq, Eq, Structural)]
pub enum Phase {
    /// Window, context, shader and mesh are being created; any failure
    /// here is fatal and no partial-running state is permitted.
    Init,
    /// The per-tick loop body runs.
    Running,
    /// A quit request was seen; no further frame is produced.
    ShuttingDown,
    /// Resources are released; the loop is over.
    Terminated,
}

/// The mutable flags and camera position that the debug overlay edits and
/// every tick re-applies to the GPU.
#[derive(Clone, Copy, Debug, PartialEq, Eq, Structural)]
pub struct RenderState {
    pub depth_test: bool,
    pub blend: bool,
    pub wireframe: bool,
    pub culling: bool,
    pub camera: Vec3Bits,
}

/// The render state the loop starts with: every toggle on, camera at
/// (3, -3, 3).
pub open spec fn default_render_state() -> RenderState {
    RenderState {
        depth_test: true,
        blend: true,
        wireframe: true,
        culling: true,
        camera: Vec3Bits { x: F32_THREE_BITS, y: F32_NEG_THREE_BITS, z: F32_THREE_BITS },
    }
}

impl Default for RenderState {
    /// The startup defaults.
    fn default() -> (s: RenderState)
        ensures
            s == default_render_state(),
    {
        RenderState {
            depth_test: true,
            blend: true,
            wireframe: true,
            culling: true,
            camera: Vec3Bits { x: F32_THREE_BITS, y: F32_NEG_THREE_BITS, z: F32_THREE_BITS },
        }
    }
}

/// An event that asks the application to stop: a quit event or an
/// escape-key-down event.
pub open spec fn event_requests_quit(e: Event) -> bool {
    match e {
        Event::Quit => true,
        Event::KeyDown { code } => code == KEYCODE_ESCAPE,
        Event::Other => false,
    }
}

/// A drained event that stops the loop: it requests quit and the overlay
/// did not claim it.
pub open spec fn polled_event_quits(p: PolledEvent) -> bool {
    !p.claimed_by_overlay && event_requests_quit(p.event)
}

/// Whether this tick's event queue ends the Running phase.
pub open spec fn should_shut_down(events: Seq<PolledEvent>) -> bool {
    exists|i: int| 0 <= i < events.len() && polled_event_quits(#[trigger] events[i])
}

/// The fixed-function state commands of one tick, applied every tick
/// whether or not anything changed (idempotent re-application is the
/// design, not an optimization bug): depth test, blending, fill mode and
/// culling from the flags, then the viewport, the fixed clear color, and
/// the clear of the color buffer plus the depth buffer when depth testing
/// is on.
pub open spec fn state_commands_spec(s: RenderState) -> Seq<GlCommand> {
    (if s.depth_test {
        seq![GlCommand::Enable(Capability::DepthTest)]
    } else {
        seq![GlCommand::Disable(Capability::DepthTest)]
    }) + (if s.blend {
        seq![GlCommand::Enable(Capability::Blend), GlCommand::BlendFuncStandardAlpha]
    } else {
        seq![GlCommand::Disable(Capability::Blend)]
    }) + seq![
        GlCommand::PolygonMode(if s.wireframe { FillMode::Line } else { FillMode::Fill }),
    ] + (if s.culling {
        seq![GlCommand::Enable(Capability::CullFace)]
    } else {
        seq![GlCommand::Disable(Capability::CullFace)]
    }) + seq![
        GlCommand::Viewport { x: 0, y: 0, width: WINDOW_WIDTH as i32, height: WINDOW_HEIGHT as i32 },
        GlCommand::ClearColor { red: 255, green: 255, blue: 255, alpha: 255 },
        GlCommand::Clear { color: true, depth: s.depth_test },
    ]
}

/// Emits the fixed-function state commands for `s`.
pub fn render_state_commands(s: &RenderState) -> (cmds: Vec<GlCommand>)
    ensures
        cmds@ == state_commands_spec(*s),
{
    let mut cmds: Vec<GlCommand> = Vec::new();
    if s.depth_test {
        cmds.push(GlCommand::Enable(Capability::DepthTest));
    } else {
        cmds.push(GlCommand::Disable(Capability::DepthTest));
    }
    if s.blend {
        cmds.push(GlCommand::Enable(Capability::Blend));
        cmds.push(GlCommand::BlendFuncStandardAlpha);
    } else {
        cmds.push(GlCommand::Disable(Capability::Blend));
    }
    if s.wireframe {
        cmds.push(GlCommand::PolygonMode(FillMode::Line));
    } else {
        cmds.push(GlCommand::PolygonMode(FillMode::Fill));
    }
    if s.culling {
        cmds.push(GlCommand::Enable(Capability::CullFace));
    } else {
        cmds.push(GlCommand::Disable(Capability::CullFace));
    }
    cmds.push(
        GlCommand::Viewport { x: 0, y: 0, width: WINDOW_WIDTH as i32, height: WINDOW_HEIGHT as i32 },
    );
    cmds.push(GlCommand::ClearColor { red: 255, green: 255, blue: 255, alpha: 255 });
    cmds.push(GlCommand::Clear { color: true, depth: s.depth_test });
    proof {
        assert(cmds@ =~= state_commands_spec(*s));
    }
    cmds
}

/// Everything the shell must do to render and present one frame, in
/// order: apply the state commands, upload the three transforms to the
/// shader, execute the draw commands, render the overlay on top, present
/// the frame, then sleep for the frame budget.
#[derive(Debug)]
pub struct FrameOutput {
    pub state_commands: Vec<GlCommand>,
    pub transforms: TransformSet,
    pub draw_commands: Vec<GlCommand>,
    pub sleep_nanos: u32,
}

/// What one tick decided.
#[derive(Debug)]
pub enum TickOutcome {
    /// Render, present and sleep as described.
    Frame(FrameOutput),
    /// A quit request was seen; the remaining events of this tick were
    /// abandoned and no frame is rendered or presented.
    Shutdown,
}

/// The frame loop: it owns the mesh, the shader handle and the mutable
/// state block (render state and frame counter).
#[derive(Clone, Copy, Debug, PartialEq, Eq, Structural)]
pub struct FrameLoop {
    pub phase: Phase,
    pub frame_clock: u32,
    pub render_state: RenderState,
    pub mesh: Vertex,
    pub shader_program: u32,
}

impl FrameLoop {
    /// A freshly created loop, still in its Init phase: the frame counter
    /// is zero and the render state holds its defaults.
    pub fn new(mesh: Vertex, shader_program: u32) -> (l: FrameLoop)
        ensures
            l.phase == Phase::Init,
            l.frame_clock == 0,
            l.render_state == default_render_state(),
            l.mesh == mesh,
            l.shader_program == shader_program,
    {
        FrameLoop {
            phase: Phase::Init,
            frame_clock: 0,
            render_state: RenderState::default(),
            mesh,
            shader_program,
        }
    }

    /// Init completed: window, context, shader and mesh all exist, so the
    /// loop enters Running. If any of them failed, the shell aborts
    /// instead and this transition never happens.
    pub fn begin_running(&mut self)
        requires
            old(self).phase == Phase::Init,
        ensures
            final(self).phase == Phase::Running,
            final(self).frame_clock == old(self).frame_clock,
            final(self).render_state == old(self).render_state,
            final(self).mesh == old(self).mesh,
            final(self).shader_program == old(self).shader_program,
    {
        self.phase = Phase::Running;
    }

    /// One tick of the Running phase. `events` is this tick's drained
    /// queue in order, each marked if the overlay claimed it;
    /// `overlay_update` is the render state as the overlay left it, or
    /// `None` when no overlay is attached.
    ///
    /// If any unclaimed event requests quit, the loop moves to
    /// ShuttingDown at once, abandoning the rest of the queue: no frame is
    /// drawn or presented and the frame counter does not advance.
    /// Otherwise the overlay's state is adopted, and the returned frame
    /// applies exactly the state commands of that state, the transforms of
    /// the pre-increment frame counter and the adopted camera, the mesh's
    /// draw commands, and the fixed frame-budget sleep; the frame counter
    /// then advances by one, wrapping at the integer's width.
    pub fn tick(&mut self, events: &Vec<PolledEvent>, overlay_update: Option<RenderState>) -> (outcome:
        TickOutcome)
        requires
            old(self).phase == Phase::Running,
        ensures
            final(self).mesh == old(self).mesh,
            final(self).shader_program == old(self).shader_program,
            should_shut_down(events@) ==> {
                &&& final(self).phase == Phase::ShuttingDown
                &&& final(self).frame_clock == old(self).frame_clock
                &&& final(self).render_state == old(self).render_state
                &&& outcome is Shutdown
            },
            !should_shut_down(events@) ==> {
                &&& final(self).phase == Phase::Running
                &&& final(self).render_state == (match overlay_update {
                    Some(updated) => updated,
                    None => old(self).render_state,
                })
                &&& final(self).frame_clock == next_frame(old(self).frame_clock)
                &&& outcome matches TickOutcome::Frame(out) && {
                    &&& out.state_commands@ == state_commands_spec(final(self).render_state)
                    &&& out.transforms == transform_set_spec(
                        old(self).frame_clock,
                        final(self).render_state.camera,
                    )
                    &&& out.draw_commands@ == draw_commands_spec(old(self).mesh)
                    &&& out.sleep_nanos == FRAME_BUDGET_NANOS
                }
            },
    {
        let n = events.len();
        let mut i: usize = 0;
        while i < n
            invariant
                *self == *old(self),
                self.phase == Phase::Running,
                n == events@.len(),
                i <= n,
                forall|j: int| 0 <= j < i ==> !polled_event_quits(#[trigger] events@[j]),
            decreases n - i,
        {
            let e = events[i];
            if !e.claimed_by_overlay {
                let quits = match e.event {
                    Event::Quit => true,
                    Event::KeyDown { code } => code == KEYCODE_ESCAPE,
                    Event::Other => false,
                };
                if quits {
                    assert(polled_event_quits(events@[i as int]));
                    self.phase = Phase::ShuttingDown;
                    return TickOutcome::Shutdown;
                }
            }
            i = i + 1;
        }
        assert(!should_shut_down(events@));
        match overlay_update {
            Some(updated) => {
                self.render_state = updated;
            },
            None => {},
        }
        let state_commands = render_state_commands(&self.render_state);
        let transforms = build_transforms(self.frame_clock, self.render_state.camera);
        let draw_commands = self.mesh.draw();
        self.frame_clock = if self.frame_clock == u32::MAX {
            0
        } else {
            self.frame_clock + 1
        };
        TickOutcome::Frame(
            FrameOutput { state_commands, transforms, draw_commands, sleep_nanos: FRAME_BUDGET_NANOS },
        )
    }

    /// ShuttingDown completed: the shell has released the context and
    /// window (and with them the GPU resources), and the loop terminates.
    pub fn finish(&mut self)
        requires
            old(self).phase == Phase::ShuttingDown,
        ensures
            final(self).phase == Phase::Terminated,
            final(self).frame_clock == old(self).frame_clock,
            final(self).render_state == old(self).render_state,
            final(self).mesh == old(self).mesh,
            final(self).shader_program == old(self).shader_program,
    {
        self.phase = Phase::Terminated;
    }
}

} // verus!
