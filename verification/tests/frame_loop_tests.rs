use render_harness::Capability;
use render_harness::Event;
use render_harness::FillMode;
use render_harness::FrameLoop;
use render_harness::FRAME_BUDGET_NANOS;
use render_harness::GlCommand;
use render_harness::GlElementType;
use render_harness::KEYCODE_ESCAPE;
use render_harness::Phase;
use render_harness::PolledEvent;
use render_harness::RenderState;
use render_harness::TickOutcome;
use render_harness::UsageHint;
use render_harness::Vec3Bits;
use render_harness::Vertex;
use render_harness::render_state_commands;

fn triangle_loop() -> FrameLoop {
    let data: Vec<f32> = vec![-1.0, -1.0, 0.0, 1.0, -1.0, 0.0, 0.0, 1.0, 0.0];
    let size = data.len() * std::mem::size_of::<f32>();
    let (vertex, _) = Vertex::new(
        11,
        22,
        size,
        UsageHint::StaticDraw,
        vec![GlElementType::Float],
        vec![3],
        12,
        3,
    )
    .unwrap();
    let mut frame_loop = FrameLoop::new(vertex, 42);
    assert_eq!(frame_loop.phase, Phase::Init);
    frame_loop.begin_running();
    assert_eq!(frame_loop.phase, Phase::Running);
    frame_loop
}

#[test]
fn sixty_quiet_ticks_give_sixty_presents() {
    let mut frame_loop = triangle_loop();
    let no_events: Vec<PolledEvent> = Vec::new();
    let mut presents: u32 = 0;
    let mut slept_nanos: u64 = 0;
    for _ in 0..60 {
        match frame_loop.tick(&no_events, None) {
            TickOutcome::Frame(out) => {
                presents += 1;
                slept_nanos += out.sleep_nanos as u64;
            }
            TickOutcome::Shutdown => panic!("no quit was injected"),
        }
    }
    assert_eq!(frame_loop.frame_clock, 60);
    assert_eq!(presents, 60);
    // Sixty fixed sleeps of one sixtieth of a second: one second, up to
    // the rounding lost per tick.
    assert_eq!(slept_nanos, 60 * FRAME_BUDGET_NANOS as u64);
    assert!(1_000_000_000 - slept_nanos < 60);
}

#[test]
fn quit_on_tick_five_stops_after_five_frames() {
    let mut frame_loop = triangle_loop();
    let no_events: Vec<PolledEvent> = Vec::new();
    let mut draws: u32 = 0;
    for tick_index in 0..10 {
        let events = if tick_index == 5 {
            vec![PolledEvent { event: Event::Quit, claimed_by_overlay: false }]
        } else {
            no_events.clone()
        };
        match frame_loop.tick(&events, None) {
            TickOutcome::Frame(out) => {
                draws += 1;
                let triangle_draws = out
                    .draw_commands
                    .iter()
                    .filter(|c| matches!(c, GlCommand::DrawTriangles { first: 0, count: 3 }))
                    .count();
                assert_eq!(triangle_draws, 1);
            }
            TickOutcome::Shutdown => break,
        }
    }
    assert_eq!(draws, 5);
    assert_eq!(frame_loop.frame_clock, 5);
    assert_eq!(frame_loop.phase, Phase::ShuttingDown);
    frame_loop.finish();
    assert_eq!(frame_loop.phase, Phase::Terminated);
}

#[test]
fn escape_key_shuts_down() {
    let mut frame_loop = triangle_loop();
    let events = vec![
        PolledEvent { event: Event::Other, claimed_by_overlay: false },
        PolledEvent { event: Event::KeyDown { code: KEYCODE_ESCAPE }, claimed_by_overlay: false },
    ];
    assert!(matches!(frame_loop.tick(&events, None), TickOutcome::Shutdown));
    assert_eq!(frame_loop.phase, Phase::ShuttingDown);
    assert_eq!(frame_loop.frame_clock, 0);
}

#[test]
fn other_keys_do_not_shut_down() {
    let mut frame_loop = triangle_loop();
    let events = vec![
        PolledEvent { event: Event::KeyDown { code: KEYCODE_ESCAPE + 1 }, claimed_by_overlay: false },
        PolledEvent { event: Event::Other, claimed_by_overlay: false },
    ];
    assert!(matches!(frame_loop.tick(&events, None), TickOutcome::Frame(_)));
    assert_eq!(frame_loop.phase, Phase::Running);
    assert_eq!(frame_loop.frame_clock, 1);
}

#[test]
fn events_claimed_by_the_overlay_are_not_application_input() {
    let mut frame_loop = triangle_loop();
    let events = vec![
        PolledEvent { event: Event::KeyDown { code: KEYCODE_ESCAPE }, claimed_by_overlay: true },
        PolledEvent { event: Event::Quit, claimed_by_overlay: true },
    ];
    assert!(matches!(frame_loop.tick(&events, None), TickOutcome::Frame(_)));
    assert_eq!(frame_loop.phase, Phase::Running);
}

#[test]
fn default_state_commands_apply_every_toggle() {
    let state = RenderState::default();
    assert!(state.depth_test && state.blend && state.wireframe && state.culling);
    let cmds = render_state_commands(&state);
    assert_eq!(
        cmds,
        vec![
            GlCommand::Enable(Capability::DepthTest),
            GlCommand::Enable(Capability::Blend),
            GlCommand::BlendFuncStandardAlpha,
            GlCommand::PolygonMode(FillMode::Line),
            GlCommand::Enable(Capability::CullFace),
            GlCommand::Viewport { x: 0, y: 0, width: 900, height: 480 },
            GlCommand::ClearColor { red: 255, green: 255, blue: 255, alpha: 255 },
            GlCommand::Clear { color: true, depth: true },
        ]
    );
}

#[test]
fn overlay_updates_are_adopted_before_drawing() {
    let mut frame_loop = triangle_loop();
    let no_events: Vec<PolledEvent> = Vec::new();
    let mut updated = RenderState::default();
    updated.depth_test = false;
    updated.wireframe = false;
    updated.camera = Vec3Bits { x: 1, y: 2, z: 3 };
    match frame_loop.tick(&no_events, Some(updated)) {
        TickOutcome::Frame(out) => {
            assert!(out.state_commands.contains(&GlCommand::Disable(Capability::DepthTest)));
            assert!(out.state_commands.contains(&GlCommand::PolygonMode(FillMode::Fill)));
            // The depth buffer is only cleared while depth testing is on.
            assert!(out.state_commands.contains(&GlCommand::Clear { color: true, depth: false }));
            // The transforms of this same tick already use the new camera.
            assert_eq!(out.transforms.view.eye, Vec3Bits { x: 1, y: 2, z: 3 });
        }
        TickOutcome::Shutdown => panic!("no quit was injected"),
    }
    assert_eq!(frame_loop.render_state.camera, Vec3Bits { x: 1, y: 2, z: 3 });
}

#[test]
fn rotation_angle_follows_the_frame_clock() {
    let mut frame_loop = triangle_loop();
    let no_events: Vec<PolledEvent> = Vec::new();
    for expected_angle in 0..5u32 {
        match frame_loop.tick(&no_events, None) {
            TickOutcome::Frame(out) => {
                assert_eq!(out.transforms.model.angle_degrees, expected_angle);
            }
            TickOutcome::Shutdown => panic!("no quit was injected"),
        }
    }
}

#[test]
fn frame_clock_wraps_at_integer_width() {
    let mut frame_loop = triangle_loop();
    frame_loop.frame_clock = u32::MAX;
    let no_events: Vec<PolledEvent> = Vec::new();
    assert!(matches!(frame_loop.tick(&no_events, None), TickOutcome::Frame(_)));
    assert_eq!(frame_loop.frame_clock, 0);
}

#[test]
fn shutdown_abandons_frame_and_state_update() {
    let mut frame_loop = triangle_loop();
    let mut updated = RenderState::default();
    updated.blend = false;
    let events = vec![PolledEvent { event: Event::Quit, claimed_by_overlay: false }];
    assert!(matches!(frame_loop.tick(&events, Some(updated)), TickOutcome::Shutdown));
    // The render state of the abandoned tick is not adopted.
    assert!(frame_loop.render_state.blend);
}
