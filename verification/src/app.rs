//! The application: what each window event does to the render state and to
//! the cursor lock, and what it asks of the event loop that delivered it.

use vstd::prelude::*;
use crate::input::{KeyCode, MouseButton};
use crate::state::{FramePlan, FrameStep, KeyAction, State, StateView};
use crate::surface::{AcquireError, Severity, SurfaceConfig};

verus! {

/// Where the application runs.
#[derive(Clone, Copy, Debug, PartialEq, Eq, Structural)]
pub enum Platform {
    /// A desktop window. The cursor can be locked to it, and the render
    /// state is built before the first event is handled.
    Native,
    /// A browser canvas. There is no cursor lock, and the render state is
    /// built in the background and delivered once.
    Web,
}

/// An event of the window, as far as the application tells events apart.
#[derive(Clone, Copy, Debug, PartialEq, Eq, Structural)]
pub enum WindowEvent {
    /// The window gained (`true`) or lost the focus.
    Focused(bool),
    /// The user asked to close the window.
    CloseRequested,
    /// The window has a new physical size.
    Resized { width: u32, height: u32 },
    /// A mouse button went down (`pressed`) or up.
    MouseInput { button: MouseButton, pressed: bool },
    /// The window wants to be drawn.
    RedrawRequested,
    /// A key went down (`pressed`) or up.
    KeyboardInput { code: KeyCode, pressed: bool },
    /// The cursor moved; each coordinate is given as the bits of a
    /// double-precision float.
    CursorMoved { x: u64, y: u64 },
    /// Every other event.
    Other,
}

/// What the event loop does after it handed an event to the application.
#[derive(Clone, Copy, Debug, PartialEq, Eq, Structural)]
pub enum Command {
    /// Nothing.
    Idle,
    /// Leave the event loop.
    Exit,
    /// Try to lock the cursor to the window, and report with
    /// `cursor_lock_result` whether that worked.
    LockCursor,
    /// Release the cursor and show it.
    ReleaseCursor,
    /// Configure the surface with the state's configuration.
    ConfigureSurface,
    /// Ask for the next redraw; draw nothing.
    SkipFrame,
    /// Ask for the next redraw, then acquire a frame and report with
    /// `frame_acquired` or `frame_failed`.
    AcquireFrame,
}

/// What the event loop does when the application is resumed, after it has
/// made the window.
#[derive(Clone, Copy, Debug, PartialEq, Eq, Structural)]
pub enum Startup {
    /// Build the render state now and hand it over with `user_event` before
    /// another event is handled.
    BuildNow,
    /// Build the render state in the background and hand it over with
    /// `user_event` when it is done.
    BuildInBackground,
    /// Build nothing.
    Nothing,
}

/// What the event loop does after it handed over a render state.
#[derive(Clone, Copy, Debug, PartialEq, Eq, Structural)]
pub struct Installed {
    /// Ask for a redraw.
    pub request_redraw: bool,
    /// Configure the surface with the state's configuration.
    pub configure_surface: bool,
}

/// What an application holds.
pub struct AppView {
    /// Where the application runs.
    pub platform: Platform,
    /// The render state still has to be ordered (only ever on the web).
    pub state_pending: bool,
    /// The render state, once it was handed over.
    pub state: Option<StateView>,
    /// The cursor is locked to the window.
    pub mouse_locked: bool,
    /// The frame loop met a fatal failure.
    pub failed: bool,
}

impl AppView {
    /// An application that has no render state yet.
    pub open spec fn initial(platform: Platform) -> AppView {
        AppView {
            platform,
            state_pending: platform == Platform::Web,
            state: None,
            mouse_locked: false,
            failed: false,
        }
    }

    /// The cursor is only ever locked on a desktop, and only while there is
    /// a render state, which keeps its own invariant.
    pub open spec fn inv(self) -> bool {
        &&& self.mouse_locked ==> self.platform == Platform::Native && self.state is Some
        &&& self.state_pending ==> self.platform == Platform::Web
        &&& self.state matches Some(s) ==> s.inv()
    }

    /// What a resumption asks of the event loop. On a desktop every
    /// resumption builds a render state; on the web only the first does.
    pub open spec fn startup(self) -> Startup {
        match self.platform {
            Platform::Native => Startup::BuildNow,
            Platform::Web => if self.state_pending {
                Startup::BuildInBackground
            } else {
                Startup::Nothing
            },
        }
    }

    /// The application after it was resumed.
    pub open spec fn resumed(self) -> AppView {
        AppView { state_pending: false, ..self }
    }

    /// What the handing over of a render state asks of the event loop, with
    /// the window's size at that moment. On the web the state is resized to
    /// the window at once and a redraw is asked for; on a desktop the first
    /// resize event does that.
    pub open spec fn install_effects(self, width: u32, height: u32) -> Installed {
        match self.platform {
            Platform::Native => Installed { request_redraw: false, configure_surface: false },
            Platform::Web => Installed {
                request_redraw: true,
                configure_surface: SurfaceConfig::has_area(width, height),
            },
        }
    }

    /// The application after a render state was handed over: the state
    /// replaces the one there was, whole.
    pub open spec fn installed(self, state: StateView, width: u32, height: u32) -> AppView {
        match self.platform {
            Platform::Native => AppView { state: Some(state), ..self },
            Platform::Web => AppView { state: Some(state.resized(width, height)), ..self },
        }
    }

    /// Whether a press of Escape releases the cursor instead of reaching the
    /// render state.
    pub open spec fn escape_releases(self, code: KeyCode, pressed: bool) -> bool {
        self.platform == Platform::Native && code == KeyCode::Escape && pressed
            && self.mouse_locked
    }

    /// What an event asks of the event loop. Without a render state every
    /// event is dropped.
    pub open spec fn command(self, event: WindowEvent) -> Command {
        match self.state {
            None => Command::Idle,
            Some(state) => match event {
                WindowEvent::Focused(true) => match self.platform {
                    Platform::Native => Command::LockCursor,
                    Platform::Web => Command::Idle,
                },
                WindowEvent::Focused(false) => match self.platform {
                    Platform::Native => Command::ReleaseCursor,
                    Platform::Web => Command::Idle,
                },
                WindowEvent::CloseRequested => Command::Exit,
                WindowEvent::Resized { width, height } => if SurfaceConfig::has_area(
                    width,
                    height,
                ) {
                    Command::ConfigureSurface
                } else {
                    Command::Idle
                },
                WindowEvent::MouseInput { button, pressed } => if self.platform
                    == Platform::Native && button == MouseButton::Left && pressed
                    && !self.mouse_locked {
                    Command::LockCursor
                } else {
                    Command::Idle
                },
                WindowEvent::RedrawRequested => match state.frame_step() {
                    FrameStep::Acquire => Command::AcquireFrame,
                    FrameStep::Skip => Command::SkipFrame,
                },
                WindowEvent::KeyboardInput { code, pressed } => if self.escape_releases(
                    code,
                    pressed,
                ) {
                    Command::ReleaseCursor
                } else {
                    match StateView::key_action(code, pressed) {
                        KeyAction::Exit => Command::Exit,
                        KeyAction::Continue => Command::Idle,
                    }
                },
                WindowEvent::CursorMoved { .. } => Command::Idle,
                WindowEvent::Other => Command::Idle,
            },
        }
    }

    /// The application after an event.
    pub open spec fn after_event(self, event: WindowEvent) -> AppView {
        match self.state {
            None => self,
            Some(state) => match event {
                WindowEvent::Focused(focused) => if self.platform == Platform::Native && !focused {
                    AppView { mouse_locked: false, ..self }
                } else {
                    self
                },
                WindowEvent::CloseRequested => self,
                WindowEvent::Resized { width, height } => AppView {
                    state: Some(state.resized(width, height)),
                    ..self
                },
                WindowEvent::MouseInput { .. } => self,
                WindowEvent::RedrawRequested => AppView { state: Some(state.frame_begun()), ..self },
                WindowEvent::KeyboardInput { code, pressed } => if self.escape_releases(
                    code,
                    pressed,
                ) {
                    AppView { mouse_locked: false, ..self }
                } else {
                    AppView { state: Some(state.key_handled(code, pressed)), ..self }
                },
                WindowEvent::CursorMoved { x, y } => AppView {
                    state: Some(state.mouse_moved(x, y)),
                    ..self
                },
                WindowEvent::Other => self,
            },
        }
    }

    /// The application after the event loop reported whether the cursor is
    /// locked now. The report counts only where a lock can have been asked
    /// for: on a desktop, with a render state.
    pub open spec fn cursor_lock_reported(self, locked: bool) -> AppView {
        if self.platform == Platform::Native && self.state is Some {
            AppView { mouse_locked: locked, ..self }
        } else {
            self
        }
    }

    /// What is recorded into the frame that was acquired; `None` where no
    /// tick is under way.
    pub open spec fn frame_plan(self) -> Option<FramePlan> {
        match self.state {
            Some(state) => state.frame_plan(),
            None => None,
        }
    }

    /// The application after the tick under way acquired its frame.
    pub open spec fn frame_acquired(self) -> AppView {
        match self.state {
            Some(state) => AppView { state: Some(state.frame_acquired()), ..self },
            None => self,
        }
    }

    /// How the failure to acquire a frame is treated; `None` where no tick
    /// is under way.
    pub open spec fn failure_severity(self, error: AcquireError) -> Option<Severity> {
        match self.state {
            Some(state) => state.failure_severity(error),
            None => None,
        }
    }

    /// The application after the tick under way failed to acquire its frame.
    /// A fatal failure is remembered.
    pub open spec fn frame_failed(self, error: AcquireError) -> AppView {
        match self.state {
            Some(state) => AppView {
                state: Some(state.frame_failed(error)),
                failed: self.failed || state.failure_severity(error) == Some(Severity::Fatal),
                ..self
            },
            None => self,
        }
    }

    /// The application after recovery was handed the window's current size.
    pub open spec fn recovered(self, width: u32, height: u32) -> AppView {
        match self.state {
            Some(state) => AppView { state: Some(state.recovered(width, height)), ..self },
            None => self,
        }
    }

    /// Whether recovery asks for the surface to be configured.
    pub open spec fn recovery_configures(self, width: u32, height: u32) -> bool {
        self.state is Some && SurfaceConfig::has_area(width, height)
    }

    /// The exit code of the process: 0 after a clean close, 1 after a fatal
    /// failure of the frame loop.
    pub open spec fn exit_code(self) -> u8 {
        if self.failed {
            1
        } else {
            0
        }
    }
}

/// A new application keeps the invariant, and so does every step of it,
/// given a render state that keeps its own.
pub proof fn lemma_app_inv_kept(
    app: AppView,
    platform: Platform,
    event: WindowEvent,
    state: StateView,
    width: u32,
    height: u32,
    locked: bool,
    error: AcquireError,
)
    requires
        app.inv(),
        state.inv(),
    ensures
        AppView::initial(platform).inv(),
        app.resumed().inv(),
        app.installed(state, width, height).inv(),
        app.after_event(event).inv(),
        app.cursor_lock_reported(locked).inv(),
        app.frame_acquired().inv(),
        app.frame_failed(error).inv(),
        app.recovered(width, height).inv(),
{
}

/// The event loop is left only on request: when the window is to be closed,
/// or when Escape is pressed while no cursor lock takes the press. A redraw
/// never ends the loop.
pub proof fn lemma_exit_only_on_request(app: AppView, event: WindowEvent)
    ensures
        app.command(event) == Command::Exit <==> app.state is Some && (event
            == WindowEvent::CloseRequested || (event matches WindowEvent::KeyboardInput {
            code,
            pressed,
        } && code == KeyCode::Escape && pressed && !app.escape_releases(code, pressed))),
{
}

/// A lost or outdated surface is never fatal: the failure is recoverable,
/// and nothing is remembered of it once the tick is over.
pub proof fn lemma_lost_surface_is_not_fatal(app: AppView, error: AcquireError)
    requires
        error == AcquireError::Lost || error == AcquireError::Outdated,
    ensures
        app.failure_severity(error) != Some(Severity::Fatal),
        app.frame_failed(error).failed == app.failed,
        app.frame_failed(error).exit_code() == app.exit_code(),
{
}

/// A redraw that follows a resize event with area acquires a frame, and the
/// frame divides the cursor position by the new width: the resize is applied
/// before the redraw sees the size.
pub proof fn lemma_redraw_after_resize_event(app: AppView, width: u32, height: u32)
    requires
        app.state is Some,
        SurfaceConfig::has_area(width, height),
    ensures
        ({
            let resized = app.after_event(WindowEvent::Resized { width, height });
            &&& app.command(WindowEvent::Resized { width, height }) == Command::ConfigureSurface
            &&& resized.command(WindowEvent::RedrawRequested) == Command::AcquireFrame
            &&& resized.after_event(WindowEvent::RedrawRequested).frame_plan() matches Some(plan)
                && plan.width == width
        }),
{
}

/// Resize events without area ask for nothing and change nothing.
pub proof fn lemma_zero_area_resize_event(app: AppView, width: u32, height: u32)
    requires
        !SurfaceConfig::has_area(width, height),
    ensures
        app.command(WindowEvent::Resized { width, height }) == Command::Idle,
        app.after_event(WindowEvent::Resized { width, height }) == app,
{
}

/// A redraw whose acquisition fails recoverably renders no frame. Once
/// recovery was handed the window's size, whatever it is, the next redraw
/// acquires a frame and renders it.
pub proof fn lemma_redraw_after_recovery(
    app: AppView,
    error: AcquireError,
    width: u32,
    height: u32,
)
    requires
        app.inv(),
        app.command(WindowEvent::RedrawRequested) == Command::AcquireFrame,
        error.severity() == Severity::Recoverable,
    ensures
        ({
            let begun = app.after_event(WindowEvent::RedrawRequested);
            let failed = begun.frame_failed(error);
            let recovered = failed.recovered(width, height);
            &&& begun.failure_severity(error) == Some(Severity::Recoverable)
            &&& failed.frame_plan() is None
            &&& failed.command(WindowEvent::RedrawRequested) == Command::SkipFrame
            &&& recovered.command(WindowEvent::RedrawRequested) == Command::AcquireFrame
            &&& recovered.after_event(WindowEvent::RedrawRequested).frame_plan() is Some
        }),
{
}

/// Once the window has lost the focus, the cursor is not locked.
pub proof fn lemma_focus_loss_releases_cursor(app: AppView)
    requires
        app.inv(),
    ensures
        !app.after_event(WindowEvent::Focused(false)).mouse_locked,
        app.mouse_locked ==> app.command(WindowEvent::Focused(false)) == Command::ReleaseCursor,
{
}

/// The application: the render state once there is one, and whether the
/// cursor is locked.
pub struct App {
    platform: Platform,
    state_pending: bool,
    state: Option<State>,
    mouse_locked: bool,
    failed: bool,
}

impl View for App {
    type V = AppView;

    closed spec fn view(&self) -> AppView {
        AppView {
            platform: self.platform,
            state_pending: self.state_pending,
            state: match self.state {
                Some(state) => Some(state@),
                None => None,
            },
            mouse_locked: self.mouse_locked,
            failed: self.failed,
        }
    }
}

impl App {
    #[verifier::type_invariant]
    spec fn lock_needs_state(self) -> bool {
        &&& self.mouse_locked ==> self.platform == Platform::Native && self.state is Some
        &&& self.state_pending ==> self.platform == Platform::Web
    }

    /// An application without a render state.
    pub fn new(platform: Platform) -> (app: App)
        ensures
            app@ == AppView::initial(platform),
    {
        let state_pending = match platform {
            Platform::Native => false,
            Platform::Web => true,
        };
        App { platform, state_pending, state: None, mouse_locked: false, failed: false }
    }

    /// Takes the news that the application was resumed, and says how the
    /// render state is to be built for the window that the event loop makes.
    pub fn resumed(&mut self) -> (startup: Startup)
        ensures
            final(self)@ == old(self)@.resumed(),
            startup == old(self)@.startup(),
    {
        proof {
            use_type_invariant(&*self);
        }
        match self.platform {
            Platform::Native => Startup::BuildNow,
            Platform::Web => {
                if self.state_pending {
                    self.state_pending = false;
                    Startup::BuildInBackground
                } else {
                    Startup::Nothing
                }
            },
        }
    }

    /// Takes a render state that was built, with the window's size at this
    /// moment, and puts it in the place of the one there was.
    pub fn user_event(&mut self, state: State, width: u32, height: u32) -> (effects: Installed)
        ensures
            final(self)@ == old(self)@.installed(state@, width, height),
            effects == old(self)@.install_effects(width, height),
    {
        proof {
            use_type_invariant(&*self);
        }
        let mut state = state;
        match self.platform {
            Platform::Native => {
                self.state = Some(state);
                Installed { request_redraw: false, configure_surface: false }
            },
            Platform::Web => {
                let configure_surface = state.resize(width, height);
                self.state = Some(state);
                Installed { request_redraw: true, configure_surface }
            },
        }
    }

    /// Takes an event of the window, and says what the event loop is to do.
    pub fn window_event(&mut self, event: WindowEvent) -> (command: Command)
        ensures
            final(self)@ == old(self)@.after_event(event),
            command == old(self)@.command(event),
    {
        proof {
            use_type_invariant(&*self);
        }
        let mut state = match self.state {
            Some(state) => state,
            None => {
                return Command::Idle;
            },
        };
        let command = match event {
            WindowEvent::Focused(is_focused) => {
                match self.platform {
                    Platform::Native => {
                        if is_focused {
                            Command::LockCursor
                        } else {
                            self.mouse_locked = false;
                            Command::ReleaseCursor
                        }
                    },
                    Platform::Web => Command::Idle,
                }
            },
            WindowEvent::CloseRequested => Command::Exit,
            WindowEvent::Resized { width, height } => {
                if state.resize(width, height) {
                    Command::ConfigureSurface
                } else {
                    Command::Idle
                }
            },
            WindowEvent::MouseInput { button: MouseButton::Left, pressed: true } => {
                match self.platform {
                    Platform::Native => {
                        if !self.mouse_locked {
                            Command::LockCursor
                        } else {
                            Command::Idle
                        }
                    },
                    Platform::Web => Command::Idle,
                }
            },
            WindowEvent::RedrawRequested => {
                state.update();
                match state.render() {
                    FrameStep::Acquire => Command::AcquireFrame,
                    FrameStep::Skip => Command::SkipFrame,
                }
            },
            WindowEvent::KeyboardInput { code, pressed } => {
                if self.releases_on(code, pressed) {
                    self.mouse_locked = false;
                    Command::ReleaseCursor
                } else {
                    match state.handle_key(code, pressed) {
                        KeyAction::Exit => Command::Exit,
                        KeyAction::Continue => Command::Idle,
                    }
                }
            },
            WindowEvent::CursorMoved { x, y } => {
                state.handle_mouse_moved(x, y);
                Command::Idle
            },
            _ => Command::Idle,
        };
        self.state = Some(state);
        command
    }

    fn releases_on(&self, code: KeyCode, pressed: bool) -> (releases: bool)
        ensures
            releases == self@.escape_releases(code, pressed),
    {
        let native = match self.platform {
            Platform::Native => true,
            Platform::Web => false,
        };
        let escape = match code {
            KeyCode::Escape => true,
            _ => false,
        };
        native && escape && pressed && self.mouse_locked
    }

    /// Takes the report whether the cursor is locked to the window now.
    pub fn cursor_lock_result(&mut self, locked: bool)
        ensures
            final(self)@ == old(self)@.cursor_lock_reported(locked),
    {
        proof {
            use_type_invariant(&*self);
        }
        match self.platform {
            Platform::Native => {
                if self.state.is_some() {
                    self.mouse_locked = locked;
                }
            },
            Platform::Web => {},
        }
    }

    /// Takes the news that the tick under way acquired its frame, and says
    /// what to record into it.
    ///
    /// `None`, and no change, exactly where no tick is under way.
    pub fn frame_acquired(&mut self) -> (plan: Option<FramePlan>)
        ensures
            final(self)@ == old(self)@.frame_acquired(),
            plan == old(self)@.frame_plan(),
            plan matches Some(p) ==> p.width > 0,
    {
        proof {
            use_type_invariant(&*self);
        }
        match self.state {
            Some(state) => {
                let mut state = state;
                let plan = state.frame_acquired();
                self.state = Some(state);
                plan
            },
            None => None,
        }
    }

    /// Takes the news that the tick under way failed to acquire its frame,
    /// and says how the failure is to be treated: after a recoverable one
    /// the event loop reads the window's size and calls `recover`; after a
    /// fatal one it leaves the loop; a transient one it passes over; any
    /// other it reports. No frame is rendered this tick.
    ///
    /// `None`, and no change, exactly where no tick is under way.
    pub fn frame_failed(&mut self, error: AcquireError) -> (severity: Option<Severity>)
        ensures
            final(self)@ == old(self)@.frame_failed(error),
            severity == old(self)@.failure_severity(error),
    {
        proof {
            use_type_invariant(&*self);
        }
        match self.state {
            Some(state) => {
                let mut state = state;
                let severity = state.frame_failed(error);
                self.state = Some(state);
                match severity {
                    Some(Severity::Fatal) => {
                        self.failed = true;
                    },
                    _ => {},
                }
                severity
            },
            None => None,
        }
    }

    /// Takes the window's current size after a recoverable failure, and says
    /// whether the surface is to be configured with the state's
    /// configuration now.
    pub fn recover(&mut self, width: u32, height: u32) -> (configure: bool)
        ensures
            final(self)@ == old(self)@.recovered(width, height),
            configure == old(self)@.recovery_configures(width, height),
    {
        proof {
            use_type_invariant(&*self);
        }
        match self.state {
            Some(state) => {
                let mut state = state;
                let configure = state.recover(width, height);
                self.state = Some(state);
                configure
            },
            None => false,
        }
    }

    /// The render state, once it was handed over.
    pub fn state(&self) -> (state: Option<State>)
        ensures
            state is Some <==> self@.state is Some,
            state matches Some(s) ==> Some(s@) == self@.state,
    {
        self.state
    }

    /// Whether the cursor is locked to the window.
    pub fn mouse_locked(&self) -> (locked: bool)
        ensures
            locked == self@.mouse_locked,
            locked ==> self@.platform == Platform::Native && self@.state is Some,
    {
        proof {
            use_type_invariant(self);
        }
        self.mouse_locked
    }

    /// The exit code of the process: 0 after a clean close, 1 after a fatal
    /// failure of the frame loop.
    pub fn exit_code(&self) -> (code: u8)
        ensures
            code == self@.exit_code(),
    {
        if self.failed {
            1
        } else {
            0
        }
    }
}

} // verus!
