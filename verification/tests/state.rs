use actual_game::input::KeyCode;
use actual_game::pipeline::PipelineId;
use actual_game::state::{
    FramePlan, FrameStep, KeyAction, Phase, State, INSTANCE_COUNT, VERTEX_COUNT,
};
use actual_game::surface::{AcquireError, Severity, SurfaceConfig};
use wgpu::{CompositeAlphaMode, PresentMode, TextureFormat};

fn config(width: u32, height: u32) -> SurfaceConfig {
    SurfaceConfig::from_capabilities(
        &vec![TextureFormat::Bgra8Unorm, TextureFormat::Bgra8UnormSrgb],
        &vec![PresentMode::Fifo],
        &vec![CompositeAlphaMode::Auto],
        width,
        height,
    )
    .unwrap()
}

fn ready_state() -> State {
    let mut state = State::new(config(0, 0));
    assert!(state.resize(800, 600));
    state
}

fn render_one_frame(state: &mut State) -> FramePlan {
    assert_eq!(state.render(), FrameStep::Acquire);
    state.frame_acquired().unwrap()
}

#[test]
fn new_state_is_unconfigured() {
    let state = State::new(config(640, 480));
    assert_eq!(state.phase(), Phase::Unconfigured);
    assert!(!state.is_surface_configured());
    assert_eq!(state.config(), config(640, 480));
    assert_eq!(state.mouse_pos(), (0.0f64.to_bits(), 0.0f64.to_bits()));
    assert_eq!(state.active_pipeline(), PipelineId::Default);
}

#[test]
fn unconfigured_state_skips_the_tick() {
    let mut state = State::new(config(640, 480));
    assert_eq!(state.render(), FrameStep::Skip);
    assert_eq!(state.phase(), Phase::Unconfigured);
    assert_eq!(state.frame_acquired(), None);
    assert_eq!(state.frame_failed(AcquireError::Lost), None);
    assert_eq!(state.phase(), Phase::Unconfigured);
}

#[test]
fn zero_area_resizes_leave_an_unconfigured_state_alone() {
    let mut state = State::new(config(0, 0));
    for (width, height) in [(0, 600), (800, 0), (0, 0), (0, 1), (1, 0), (0, u32::MAX)] {
        assert!(!state.resize(width, height));
        assert_eq!(state.phase(), Phase::Unconfigured);
        assert_eq!(state.config(), config(0, 0));
        assert_eq!(state.render(), FrameStep::Skip);
    }
}

#[test]
fn zero_area_resizes_leave_a_configured_state_alone() {
    let mut state = ready_state();
    state.handle_mouse_moved(1.0f64.to_bits(), 2.0f64.to_bits());
    for (width, height) in [(0, 600), (800, 0), (0, 0)] {
        assert!(!state.resize(width, height));
        assert_eq!(state.phase(), Phase::Ready);
        assert_eq!(state.config(), config(800, 600));
        assert_eq!(state.mouse_pos(), (1.0f64.to_bits(), 2.0f64.to_bits()));
    }
}

#[test]
fn resize_with_area_configures() {
    let mut state = State::new(config(0, 0));
    assert!(state.resize(1, 1));
    assert!(state.is_surface_configured());
    assert_eq!(state.phase(), Phase::Ready);
    assert_eq!(state.config(), config(1, 1));
    assert!(state.resize(1920, 1080));
    assert_eq!(state.config(), config(1920, 1080));
    assert_eq!(state.phase(), Phase::Ready);
}

#[test]
fn tick_after_resize_divides_by_the_new_width() {
    let mut state = ready_state();
    state.handle_mouse_moved(400.0f64.to_bits(), 300.0f64.to_bits());
    let plan = render_one_frame(&mut state);
    assert_eq!(plan.width, 800);

    assert!(state.resize(1600, 300));
    let plan = render_one_frame(&mut state);
    assert_eq!(plan.width, 1600);
    let red = f64::from_bits(plan.cursor_x) / plan.width as f64;
    let green = f64::from_bits(plan.cursor_y) / plan.width as f64;
    assert_eq!(red, 0.25);
    assert_eq!(green, 0.1875);
    assert_eq!(red * red, 0.0625);
}

#[test]
fn frame_plan_is_one_draw_of_three_vertices() {
    let mut state = ready_state();
    state.handle_mouse_moved(12.5f64.to_bits(), 7.25f64.to_bits());
    let plan = render_one_frame(&mut state);
    assert_eq!(
        plan,
        FramePlan {
            cursor_x: 12.5f64.to_bits(),
            cursor_y: 7.25f64.to_bits(),
            width: 800,
            pipeline: PipelineId::Default,
            vertex_count: 3,
            instance_count: 1,
        }
    );
    assert_eq!((VERTEX_COUNT, INSTANCE_COUNT), (3, 1));
    assert_eq!(state.phase(), Phase::Ready);
}

#[test]
fn tick_goes_from_ready_through_rendering_to_ready() {
    let mut state = ready_state();
    assert_eq!(state.render(), FrameStep::Acquire);
    assert_eq!(state.phase(), Phase::Rendering);
    assert_eq!(state.render(), FrameStep::Skip);
    assert_eq!(state.phase(), Phase::Rendering);
    assert!(state.frame_acquired().is_some());
    assert_eq!(state.phase(), Phase::Ready);
    assert_eq!(state.frame_acquired(), None);
}

#[test]
fn mouse_move_is_remembered() {
    let mut state = State::new(config(0, 0));
    state.handle_mouse_moved(3.5f64.to_bits(), (-1.0f64).to_bits());
    assert_eq!(state.mouse_pos(), (3.5f64.to_bits(), (-1.0f64).to_bits()));
    assert_eq!(state.phase(), Phase::Unconfigured);
}

#[test]
fn update_changes_nothing() {
    let mut state = ready_state();
    state.handle_mouse_moved(1, 2);
    state.handle_key(KeyCode::Space, true);
    state.update();
    assert_eq!(state.phase(), Phase::Ready);
    assert_eq!(state.config(), config(800, 600));
    assert_eq!(state.mouse_pos(), (1, 2));
    assert_eq!(state.active_pipeline(), PipelineId::Challenge);
}

#[test]
fn escape_press_asks_to_exit() {
    let mut state = ready_state();
    assert_eq!(state.handle_key(KeyCode::Escape, true), KeyAction::Exit);
    assert_eq!(state.handle_key(KeyCode::Escape, false), KeyAction::Continue);
    assert_eq!(state.handle_key(KeyCode::KeyW, true), KeyAction::Continue);
    assert_eq!(state.handle_key(KeyCode::Other, true), KeyAction::Continue);
    assert_eq!(state.active_pipeline(), PipelineId::Default);
}

#[test]
fn space_press_toggles_the_pipeline() {
    let mut state = ready_state();
    assert_eq!(state.handle_key(KeyCode::Space, true), KeyAction::Continue);
    assert_eq!(state.active_pipeline(), PipelineId::Challenge);
    assert_eq!(state.handle_key(KeyCode::Space, false), KeyAction::Continue);
    assert_eq!(state.active_pipeline(), PipelineId::Challenge);
    assert_eq!(render_one_frame(&mut state).pipeline, PipelineId::Challenge);
    state.handle_key(KeyCode::Space, true);
    assert_eq!(state.active_pipeline(), PipelineId::Default);
    assert_eq!(render_one_frame(&mut state).pipeline, PipelineId::Default);
}

#[test]
fn toggle_parity() {
    for presses in 0..9u32 {
        let mut state = ready_state();
        for _ in 0..presses {
            state.handle_key(KeyCode::Space, true);
            state.handle_key(KeyCode::Space, false);
        }
        let expected =
            if presses % 2 == 0 { PipelineId::Default } else { PipelineId::Challenge };
        assert_eq!(state.active_pipeline(), expected);
    }
}

#[test]
fn toggle_survives_resize() {
    let mut state = ready_state();
    state.handle_key(KeyCode::Space, true);
    state.resize(320, 200);
    assert_eq!(state.active_pipeline(), PipelineId::Challenge);
    state.resize(0, 0);
    assert_eq!(state.active_pipeline(), PipelineId::Challenge);
}

#[test]
fn lost_surface_recovers_within_one_tick() {
    for error in [AcquireError::Lost, AcquireError::Outdated] {
        let mut state = ready_state();
        assert_eq!(state.render(), FrameStep::Acquire);
        assert_eq!(state.frame_failed(error), Some(Severity::Recoverable));
        assert_eq!(state.phase(), Phase::Recovering);
        assert_eq!(state.frame_acquired(), None);

        assert!(state.recover(1024, 768));
        assert_eq!(state.phase(), Phase::Ready);
        assert_eq!(state.config(), config(1024, 768));

        let plan = render_one_frame(&mut state);
        assert_eq!(plan.width, 1024);
        assert_eq!(state.phase(), Phase::Ready);
    }
}

#[test]
fn recovering_surface_skips_ticks() {
    let mut state = ready_state();
    state.render();
    state.frame_failed(AcquireError::Lost);
    assert_eq!(state.render(), FrameStep::Skip);
    assert_eq!(state.phase(), Phase::Recovering);
}

#[test]
fn recovery_with_a_zero_size_keeps_the_last_configuration() {
    let mut state = ready_state();
    state.render();
    state.frame_failed(AcquireError::Outdated);
    assert!(!state.recover(0, 0));
    assert_eq!(state.phase(), Phase::Ready);
    assert_eq!(state.config(), config(800, 600));
    assert_eq!(state.render(), FrameStep::Acquire);
}

#[test]
fn zero_area_resize_does_not_end_a_recovery() {
    let mut state = ready_state();
    state.render();
    state.frame_failed(AcquireError::Lost);
    assert!(!state.resize(0, 10));
    assert_eq!(state.phase(), Phase::Recovering);
    assert!(state.resize(10, 10));
    assert_eq!(state.phase(), Phase::Ready);
}

#[test]
fn recover_outside_a_recovery_is_a_resize() {
    let mut state = State::new(config(0, 0));
    assert!(!state.recover(0, 5));
    assert_eq!(state.phase(), Phase::Unconfigured);
    assert!(state.recover(5, 5));
    assert_eq!(state.phase(), Phase::Ready);
    assert_eq!(state.config(), config(5, 5));
}

#[test]
fn other_failures_skip_the_frame_and_stay_ready() {
    let cases = [
        (AcquireError::Timeout, Severity::Transient),
        (AcquireError::OutOfMemory, Severity::Fatal),
        (AcquireError::Other, Severity::Reported),
    ];
    for (error, severity) in cases {
        let mut state = ready_state();
        state.render();
        assert_eq!(state.frame_failed(error), Some(severity));
        assert_eq!(state.phase(), Phase::Ready);
        assert_eq!(state.config(), config(800, 600));
        assert_eq!(state.frame_acquired(), None);
    }
}

#[test]
fn failure_without_a_tick_is_dropped() {
    let mut state = ready_state();
    assert_eq!(state.frame_failed(AcquireError::Lost), None);
    assert_eq!(state.phase(), Phase::Ready);
    assert_eq!(state.frame_failed(AcquireError::OutOfMemory), None);
}
