//! The render state and the frame lifecycle: when the surface is configured,
//! what a redraw tick does, and how a failed acquisition is recovered from.
//!
//! The state decides and its caller acts. A tick goes: `render` says whether
//! to acquire a frame; the caller acquires one and reports the outcome with
//! `frame_acquired` or `frame_failed`; after a recoverable failure the
//! caller reads the window's size and calls `recover`.

use vstd::prelude::*;
use crate::input::KeyCode;
use crate::pipeline::PipelineId;
use crate::surface::{AcquireError, Severity, SurfaceConfig};

verus! {

/// Where the frame lifecycle stands.
#[derive(Clone, Copy, Debug, PartialEq, Eq, Structural)]
pub enum Phase {
    /// The surface was never given a size.
    Unconfigured,
    /// The surface is configured; the next tick renders.
    Ready,
    /// A tick is under way: a frame is being acquired.
    Rendering,
    /// The surface was lost or is outdated, and awaits its new size.
    Recovering,
}

/// What the caller does after a key event.
#[derive(Clone, Copy, Debug, PartialEq, Eq, Structural)]
pub enum KeyAction {
    /// Nothing: go on.
    Continue,
    /// Leave the event loop.
    Exit,
}

/// What the caller does at a redraw tick.
#[derive(Clone, Copy, Debug, PartialEq, Eq, Structural)]
pub enum FrameStep {
    /// No frame this tick.
    Skip,
    /// Acquire a frame from the surface and report the outcome.
    Acquire,
}

/// The number of vertices of the one draw call of a frame.
pub const VERTEX_COUNT: u32 = 3;

/// The number of instances of the one draw call of a frame.
pub const INSTANCE_COUNT: u32 = 1;

/// What to record into an acquired frame: one pass that clears the target
/// and issues one unindexed draw with the active pipeline.
///
/// The clear colour follows the cursor: red is `cursor_x / width`, green is
/// `cursor_y / width`, blue is the square of red, alpha is 1. Both
/// coordinates are divided by the width.
#[derive(Clone, Copy, Debug, PartialEq, Eq, Structural)]
pub struct FramePlan {
    /// The cursor's horizontal position, as the bits of a double-precision float.
    pub cursor_x: u64,
    /// The cursor's vertical position, as the bits of a double-precision float.
    pub cursor_y: u64,
    /// The surface width that the cursor position is divided by.
    pub width: u32,
    /// The pipeline to bind.
    pub pipeline: PipelineId,
    /// The draw covers the vertices from 0 up to this number.
    pub vertex_count: u32,
    /// The draw covers the instances from 0 up to this number.
    pub instance_count: u32,
}

/// What a render state holds.
pub struct StateView {
    /// The configuration of the surface.
    pub config: SurfaceConfig,
    /// Where the frame lifecycle stands.
    pub phase: Phase,
    /// The last known cursor position, each coordinate as the bits of a
    /// double-precision float.
    pub cursor: (u64, u64),
    /// The pipeline that draws.
    pub pipeline: PipelineId,
}

impl StateView {
    /// The state at startup: nothing is configured yet, the cursor is at the
    /// origin (the bits of 0.0 are 0), the default pipeline draws.
    pub open spec fn initial(config: SurfaceConfig) -> StateView {
        StateView { config, phase: Phase::Unconfigured, cursor: (0, 0), pipeline: PipelineId::Default }
    }

    /// A configured surface has a width and a height above zero.
    pub open spec fn inv(self) -> bool {
        self.phase != Phase::Unconfigured ==> SurfaceConfig::has_area(
            self.config.width,
            self.config.height,
        )
    }

    /// The state after the window was resized. A size without area changes
    /// nothing; any other size is taken over and makes the surface ready.
    pub open spec fn resized(self, width: u32, height: u32) -> StateView {
        if SurfaceConfig::has_area(width, height) {
            StateView {
                config: SurfaceConfig { width, height, ..self.config },
                phase: Phase::Ready,
                ..self
            }
        } else {
            self
        }
    }

    /// The state after each size of a sequence of resizes was applied in turn.
    pub open spec fn resized_all(self, sizes: Seq<(u32, u32)>) -> StateView
        decreases sizes.len(),
    {
        if sizes.len() == 0 {
            self
        } else {
            self.resized_all(sizes.drop_last()).resized(sizes.last().0, sizes.last().1)
        }
    }

    /// What a key event asks of the caller: a press of Escape ends the loop.
    pub open spec fn key_action(code: KeyCode, pressed: bool) -> KeyAction {
        if code == KeyCode::Escape && pressed {
            KeyAction::Exit
        } else {
            KeyAction::Continue
        }
    }

    /// The state after a key event: a press of Space toggles the pipeline.
    pub open spec fn key_handled(self, code: KeyCode, pressed: bool) -> StateView {
        if code == KeyCode::Space && pressed {
            StateView { pipeline: self.pipeline.toggled(), ..self }
        } else {
            self
        }
    }

    /// The state after the toggle key was pressed `times` times.
    pub open spec fn toggled_times(self, times: nat) -> StateView
        decreases times,
    {
        if times == 0 {
            self
        } else {
            self.toggled_times((times - 1) as nat).key_handled(KeyCode::Space, true)
        }
    }

    /// The state after the cursor moved.
    pub open spec fn mouse_moved(self, x: u64, y: u64) -> StateView {
        StateView { cursor: (x, y), ..self }
    }

    /// What a redraw tick asks of the caller.
    pub open spec fn frame_step(self) -> FrameStep {
        if self.phase == Phase::Ready {
            FrameStep::Acquire
        } else {
            FrameStep::Skip
        }
    }

    /// The state after a redraw tick began.
    pub open spec fn frame_begun(self) -> StateView {
        if self.phase == Phase::Ready {
            StateView { phase: Phase::Rendering, ..self }
        } else {
            self
        }
    }

    /// What is recorded into the frame that the tick under way acquired;
    /// `None` where no tick is under way.
    pub open spec fn frame_plan(self) -> Option<FramePlan> {
        if self.phase == Phase::Rendering {
            Some(
                FramePlan {
                    cursor_x: self.cursor.0,
                    cursor_y: self.cursor.1,
                    width: self.config.width,
                    pipeline: self.pipeline,
                    vertex_count: VERTEX_COUNT,
                    instance_count: INSTANCE_COUNT,
                },
            )
        } else {
            None
        }
    }

    /// The state after the tick under way acquired its frame.
    pub open spec fn frame_acquired(self) -> StateView {
        if self.phase == Phase::Rendering {
            StateView { phase: Phase::Ready, ..self }
        } else {
            self
        }
    }

    /// How the failure to acquire a frame is treated; `None` where no tick
    /// is under way.
    pub open spec fn failure_severity(self, error: AcquireError) -> Option<Severity> {
        if self.phase == Phase::Rendering {
            Some(error.severity())
        } else {
            None
        }
    }

    /// The state after the tick under way failed to acquire its frame.
    pub open spec fn frame_failed(self, error: AcquireError) -> StateView {
        if self.phase == Phase::Rendering {
            if error.severity() == Severity::Recoverable {
                StateView { phase: Phase::Recovering, ..self }
            } else {
                StateView { phase: Phase::Ready, ..self }
            }
        } else {
            self
        }
    }

    /// The state after recovery was handed the window's current size: the
    /// size is applied as by a resize, and a recovering surface is ready
    /// again whatever the size was.
    pub open spec fn recovered(self, width: u32, height: u32) -> StateView {
        let resized = self.resized(width, height);
        if resized.phase == Phase::Recovering {
            StateView { phase: Phase::Ready, ..resized }
        } else {
            resized
        }
    }
}

/// The startup state keeps the invariant, and so does every step of the
/// state: a configured surface always has a width and a height above zero.
pub proof fn lemma_inv_kept(
    s: StateView,
    config: SurfaceConfig,
    width: u32,
    height: u32,
    code: KeyCode,
    pressed: bool,
    x: u64,
    y: u64,
    error: AcquireError,
)
    requires
        s.inv(),
    ensures
        StateView::initial(config).inv(),
        s.resized(width, height).inv(),
        s.key_handled(code, pressed).inv(),
        s.mouse_moved(x, y).inv(),
        s.frame_begun().inv(),
        s.frame_acquired().inv(),
        s.frame_failed(error).inv(),
        s.recovered(width, height).inv(),
{
}

/// Resizes to sizes without area, however many and in whatever order, leave
/// the state exactly as it was: an unconfigured surface stays unconfigured.
pub proof fn lemma_zero_area_resizes_change_nothing(s: StateView, sizes: Seq<(u32, u32)>)
    requires
        forall|i: int| 0 <= i < sizes.len() ==> !SurfaceConfig::has_area(sizes[i].0, sizes[i].1),
    ensures
        s.resized_all(sizes) == s,
    decreases sizes.len(),
{
    if sizes.len() > 0 {
        lemma_zero_area_resizes_change_nothing(s, sizes.drop_last());
    }
}

/// A redraw tick that follows a resize to a size with area renders, and
/// divides the cursor position by the new width: no tick sees a stale size.
pub proof fn lemma_render_after_resize_uses_new_size(s: StateView, width: u32, height: u32)
    requires
        SurfaceConfig::has_area(width, height),
    ensures
        s.resized(width, height).frame_step() == FrameStep::Acquire,
        s.resized(width, height).frame_begun().frame_plan() matches Some(plan) && plan.width
            == width,
{
}

/// A resize leaves the active pipeline and the cursor position alone.
pub proof fn lemma_resize_keeps_pipeline(s: StateView, width: u32, height: u32)
    ensures
        s.resized(width, height).pipeline == s.pipeline,
        s.resized(width, height).cursor == s.cursor,
{
}

/// Pressing the toggle key an even number of times returns the active
/// pipeline to what it was, and an odd number of times flips it. Nothing
/// else in the state changes.
pub proof fn lemma_toggle_key_parity(s: StateView, times: nat)
    ensures
        times % 2 == 0 ==> s.toggled_times(times) == s,
        times % 2 == 1 ==> s.toggled_times(times) == (StateView {
            pipeline: s.pipeline.toggled(),
            ..s
        }),
    decreases times,
{
    if times > 0 {
        lemma_toggle_key_parity(s, (times - 1) as nat);
    }
}

/// A tick whose acquisition fails recoverably renders no frame and leaves
/// the surface recovering. Once recovery was handed the window's size,
/// whatever it is, the surface is ready, and the next tick acquires a frame
/// and renders it.
pub proof fn lemma_lost_surface_recovers(
    s: StateView,
    error: AcquireError,
    width: u32,
    height: u32,
)
    requires
        s.inv(),
        s.phase == Phase::Ready,
        error.severity() == Severity::Recoverable,
    ensures
        ({
            let failed = s.frame_begun().frame_failed(error);
            let recovered = failed.recovered(width, height);
            &&& s.frame_begun().failure_severity(error) == Some(Severity::Recoverable)
            &&& failed.phase == Phase::Recovering
            &&& failed.frame_plan() is None
            &&& failed.frame_step() == FrameStep::Skip
            &&& recovered.phase == Phase::Ready
            &&& recovered.inv()
            &&& recovered.frame_step() == FrameStep::Acquire
            &&& recovered.frame_begun().frame_plan() is Some
            &&& recovered.frame_begun().frame_acquired().phase == Phase::Ready
        }),
{
}

/// The render state: surface configuration, frame phase, cursor position and
/// active pipeline.
#[derive(Clone, Copy, Debug)]
pub struct State {
    config: SurfaceConfig,
    phase: Phase,
    mouse_pos: (u64, u64),
    active_pipeline: PipelineId,
}

impl View for State {
    type V = StateView;

    closed spec fn view(&self) -> StateView {
        StateView {
            config: self.config,
            phase: self.phase,
            cursor: self.mouse_pos,
            pipeline: self.active_pipeline,
        }
    }
}

impl State {
    #[verifier::type_invariant]
    spec fn configured_has_area(self) -> bool {
        self@.inv()
    }

    /// The state at startup, for a surface that will be configured with
    /// `config` once it is given a size.
    pub fn new(config: SurfaceConfig) -> (state: State)
        ensures
            state@ == StateView::initial(config),
    {
        State {
            config,
            phase: Phase::Unconfigured,
            mouse_pos: (0, 0),
            active_pipeline: PipelineId::Default,
        }
    }

    /// Takes the window's new size, and says whether the surface is to be
    /// configured with the state's configuration now.
    ///
    /// A size with a side of zero is dropped: nothing changes and nothing is
    /// to be configured.
    pub fn resize(&mut self, width: u32, height: u32) -> (configure: bool)
        ensures
            final(self)@ == old(self)@.resized(width, height),
            configure == SurfaceConfig::has_area(width, height),
    {
        proof {
            use_type_invariant(&*self);
        }
        if width > 0 && height > 0 {
            self.config.width = width;
            self.config.height = height;
            self.phase = Phase::Ready;
            true
        } else {
            false
        }
    }

    /// Takes a key that went down (`is_pressed`) or up. A press of Space
    /// toggles the active pipeline; a press of Escape asks to leave the
    /// event loop.
    pub fn handle_key(&mut self, code: KeyCode, is_pressed: bool) -> (action: KeyAction)
        ensures
            final(self)@ == old(self)@.key_handled(code, is_pressed),
            action == StateView::key_action(code, is_pressed),
    {
        proof {
            use_type_invariant(&*self);
        }
        match (code, is_pressed) {
            (KeyCode::Escape, true) => KeyAction::Exit,
            (KeyCode::Space, true) => {
                self.active_pipeline = self.active_pipeline.toggled();
                KeyAction::Continue
            },
            _ => KeyAction::Continue,
        }
    }

    /// Takes the cursor's new position, each coordinate as the bits of a
    /// double-precision float.
    pub fn handle_mouse_moved(&mut self, x: u64, y: u64)
        ensures
            final(self)@ == old(self)@.mouse_moved(x, y),
    {
        proof {
            use_type_invariant(&*self);
        }
        self.mouse_pos = (x, y);
    }

    /// Advances the scene by one tick. There is no scene state yet.
    pub fn update(&mut self)
        ensures
            final(self)@ == old(self)@,
    {
    }

    /// Begins a redraw tick. A ready surface starts rendering, and the
    /// caller acquires a frame; in every other phase the tick is skipped and
    /// nothing changes.
    pub fn render(&mut self) -> (step: FrameStep)
        ensures
            final(self)@ == old(self)@.frame_begun(),
            step == old(self)@.frame_step(),
    {
        proof {
            use_type_invariant(&*self);
        }
        match self.phase {
            Phase::Ready => {
                self.phase = Phase::Rendering;
                FrameStep::Acquire
            },
            _ => FrameStep::Skip,
        }
    }

    /// Takes the news that the tick under way acquired its frame, and says
    /// what to record into it. The surface is ready for the next tick.
    ///
    /// `None`, and no change, exactly where no tick is under way.
    pub fn frame_acquired(&mut self) -> (plan: Option<FramePlan>)
        ensures
            final(self)@ == old(self)@.frame_acquired(),
            plan == old(self)@.frame_plan(),
            plan matches Some(p) ==> p.width > 0,
    {
        proof {
            use_type_invariant(&*self);
        }
        match self.phase {
            Phase::Rendering => {
                self.phase = Phase::Ready;
                Some(
                    FramePlan {
                        cursor_x: self.mouse_pos.0,
                        cursor_y: self.mouse_pos.1,
                        width: self.config.width,
                        pipeline: self.active_pipeline,
                        vertex_count: VERTEX_COUNT,
                        instance_count: INSTANCE_COUNT,
                    },
                )
            },
            _ => None,
        }
    }

    /// Takes the news that the tick under way failed to acquire its frame,
    /// and says how the failure is to be treated. No frame is rendered this
    /// tick. After a recoverable failure the surface is recovering, and
    /// ticks are skipped until `recover` was called; after any other the
    /// surface is ready for the next tick.
    ///
    /// `None`, and no change, exactly where no tick is under way.
    pub fn frame_failed(&mut self, error: AcquireError) -> (severity: Option<Severity>)
        ensures
            final(self)@ == old(self)@.frame_failed(error),
            severity == old(self)@.failure_severity(error),
    {
        proof {
            use_type_invariant(&*self);
        }
        match self.phase {
            Phase::Rendering => {
                let severity = error.severity();
                match severity {
                    Severity::Recoverable => {
                        self.phase = Phase::Recovering;
                    },
                    _ => {
                        self.phase = Phase::Ready;
                    },
                }
                Some(severity)
            },
            _ => None,
        }
    }

    /// Takes the window's current size after a recoverable failure, and says
    /// whether the surface is to be configured with the state's
    /// configuration now. A recovering surface is ready again afterwards,
    /// also where the size was dropped for a side of zero.
    pub fn recover(&mut self, width: u32, height: u32) -> (configure: bool)
        ensures
            final(self)@ == old(self)@.recovered(width, height),
            configure == SurfaceConfig::has_area(width, height),
    {
        proof {
            use_type_invariant(&*self);
        }
        let configure = self.resize(width, height);
        match self.phase {
            Phase::Recovering => {
                self.phase = Phase::Ready;
            },
            _ => {},
        }
        configure
    }

    /// The configuration to configure the surface with.
    pub fn config(&self) -> (config: SurfaceConfig)
        ensures
            config == self@.config,
    {
        self.config
    }

    /// Where the frame lifecycle stands.
    pub fn phase(&self) -> (phase: Phase)
        ensures
            phase == self@.phase,
    {
        self.phase
    }

    /// Whether the surface was ever configured. A configured surface has a
    /// width and a height above zero.
    pub fn is_surface_configured(&self) -> (configured: bool)
        ensures
            configured == (self@.phase != Phase::Unconfigured),
            configured ==> SurfaceConfig::has_area(self@.config.width, self@.config.height),
    {
        proof {
            use_type_invariant(self);
        }
        match self.phase {
            Phase::Unconfigured => false,
            _ => true,
        }
    }

    /// The last known cursor position, each coordinate as the bits of a
    /// double-precision float.
    pub fn mouse_pos(&self) -> (position: (u64, u64))
        ensures
            position == self@.cursor,
    {
        self.mouse_pos
    }

    /// The pipeline that draws.
    pub fn active_pipeline(&self) -> (pipeline: PipelineId)
        ensures
            pipeline == self@.pipeline,
    {
        self.active_pipeline
    }
}

} // verus!
