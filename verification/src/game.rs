//! The application around the renderer: it takes window events, keeps the
//! graphics context and the camera in step with the window, and runs the
//! frame loop.

use vstd::prelude::*;
use crate::camera::{BundleChange, BundleView, Matrix4};
use crate::context::{ContextView, SurfaceCapabilities, WgpuContext};
use crate::controller::{FirstPersonController, UniformWrite};
use crate::frame::{transition, FrameAction, FrameEvent, FrameLoop, FrameState};
use crate::size::PhysicalSize;

verus! {

/// What the window system reports.
#[derive(Clone, Copy, Debug, PartialEq, Eq, Structural)]
pub enum Event {
    /// The window took a new size.
    Resized(PhysicalSize),
    /// The scale factor changed, and with it the size in pixels.
    ScaleFactorChanged(PhysicalSize),
    /// The user asked to close the window.
    CloseRequested,
    /// The window is due a redraw.
    RedrawRequested,
    /// Every pending event was delivered.
    MainEventsCleared,
    /// Anything else.
    Other,
}

/// What the caller is to do after an event.
#[derive(Clone, Copy, Debug, PartialEq, Eq, Structural)]
pub enum Command {
    /// Apply the surface configuration and recreate the depth buffer.
    Configure,
    /// Leave the event loop.
    Exit,
    /// Ask the window for a redraw.
    RequestRedraw,
    /// Go on with the frame as the frame loop says.
    Frame(FrameAction),
    /// Nothing.
    Nothing,
}

/// The mathematical content of a game.
pub struct GameView {
    pub ctx: ContextView,
    pub camera: BundleView,
    pub frame: FrameState,
}

impl GameView {
    /// The game after the window took `new_size`: the context follows if
    /// the size has area, the camera's aspect ratio follows in any case.
    pub open spec fn resized(self, new_size: PhysicalSize) -> GameView {
        GameView {
            ctx: self.ctx.resized(new_size),
            camera: self.camera.apply(BundleChange::Resize(new_size)),
            ..self
        }
    }

    /// The game after a report to the frame loop. Where the frame loop
    /// asks for the surface to be configured again, the game is resized to
    /// the size it has.
    pub open spec fn after_frame_event(self, event: FrameEvent) -> GameView {
        let next = GameView { frame: transition(self.frame, event).0, ..self };
        if transition(self.frame, event).1 == FrameAction::Reconfigure {
            next.resized(self.ctx.window_size)
        } else {
            next
        }
    }

    /// The game after a window event.
    pub open spec fn after_event(self, event: Event) -> GameView {
        match event {
            Event::Resized(size) => self.resized(size),
            Event::ScaleFactorChanged(size) => self.resized(size),
            Event::RedrawRequested => self.after_frame_event(FrameEvent::Tick),
            _ => self,
        }
    }

    /// What the caller is to do after a window event.
    pub open spec fn command_for(self, event: Event) -> Command {
        match event {
            Event::Resized(size) => if size.has_area() {
                Command::Configure
            } else {
                Command::Nothing
            },
            Event::ScaleFactorChanged(size) => if size.has_area() {
                Command::Configure
            } else {
                Command::Nothing
            },
            Event::CloseRequested => Command::Exit,
            Event::RedrawRequested => Command::Frame(transition(self.frame, FrameEvent::Tick).1),
            Event::MainEventsCleared => Command::RequestRedraw,
            Event::Other => Command::Nothing,
        }
    }

    pub open spec fn wf(self) -> bool {
        self.ctx.wf()
    }
}

/// A game that is set up and not yet running.
pub struct Game {
    ctx: WgpuContext,
    camera: FirstPersonController,
}

/// A game in its event loop.
pub struct RunningGame {
    game: Game,
    frame: FrameLoop,
}

impl View for Game {
    type V = GameView;

    closed spec fn view(&self) -> GameView {
        GameView { ctx: self.ctx@, camera: self.camera@, frame: FrameState::Idle }
    }
}

impl View for RunningGame {
    type V = GameView;

    closed spec fn view(&self) -> GameView {
        GameView { frame: self.frame@, ..self.game@ }
    }
}

impl Game {
    /// What the surface of the game's context supports.
    pub closed spec fn capabilities(&self) -> SurfaceCapabilities {
        self.ctx.capabilities()
    }

    /// A game on the context `ctx`, with a camera for a screen of the
    /// context's size.
    pub fn new(ctx: WgpuContext) -> (game: Game)
        ensures
            game@.wf(),
            game.capabilities() == ctx.capabilities(),
            game@ == (GameView {
                ctx: ctx@,
                camera: FirstPersonController::initial(ctx@.window_size),
                frame: FrameState::Idle,
            }),
    {
        let camera = FirstPersonController::new(ctx.surface_size());
        Game { ctx, camera }
    }

    pub fn ctx(&self) -> (ctx: &WgpuContext)
        ensures
            ctx@ == self@.ctx,
            ctx.capabilities() == self.capabilities(),
            self@.wf(),
    {
        proof {
            use_type_invariant(&self.ctx);
        }
        &self.ctx
    }

    pub fn camera(&self) -> (camera: &FirstPersonController)
        ensures
            camera@ == self@.camera,
    {
        &self.camera
    }

    /// Brings the camera's uniform up to date; see
    /// [`FirstPersonController::update`].
    pub fn update_camera(&mut self, view_proj: Matrix4) -> (write: UniformWrite)
        ensures
            final(self)@ == (GameView {
                camera: old(self)@.camera.apply(BundleChange::Update(view_proj)),
                ..old(self)@
            }),
            final(self).capabilities() == old(self).capabilities(),
            write.offset == 0,
            write.words@ == final(self)@.camera.uniform.words(),
    {
        self.camera.update(view_proj)
    }

    /// Follows the window to `new_size`, and says whether the surface has
    /// to be configured again.
    pub fn resize(&mut self, new_size: PhysicalSize) -> (reconfigure: bool)
        ensures
            final(self)@.wf(),
            final(self)@ == old(self)@.resized(new_size),
            final(self).capabilities() == old(self).capabilities(),
            reconfigure == new_size.has_area(),
    {
        let reconfigure = self.ctx.resize(new_size);
        self.camera.resize(new_size);
        reconfigure
    }

    /// Enters the event loop. The game is used up: it cannot be run twice.
    pub fn run(self) -> (running: RunningGame)
        ensures
            running@ == self@,
            running.capabilities() == self.capabilities(),
            running@.wf(),
            running@.frame == FrameState::Idle,
    {
        proof {
            use_type_invariant(&self.ctx);
        }
        RunningGame { game: self, frame: FrameLoop::new() }
    }
}

impl RunningGame {
    /// What the surface of the game's context supports.
    pub closed spec fn capabilities(&self) -> SurfaceCapabilities {
        self.game.capabilities()
    }

    pub fn ctx(&self) -> (ctx: &WgpuContext)
        ensures
            ctx@ == self@.ctx,
            ctx.capabilities() == self.capabilities(),
            self@.wf(),
    {
        self.game.ctx()
    }

    pub fn camera(&self) -> (camera: &FirstPersonController)
        ensures
            camera@ == self@.camera,
    {
        self.game.camera()
    }

    pub fn frame(&self) -> (frame: &FrameLoop)
        ensures
            frame@ == self@.frame,
    {
        &self.frame
    }

    /// Brings the camera's uniform up to date; see
    /// [`FirstPersonController::update`].
    pub fn update_camera(&mut self, view_proj: Matrix4) -> (write: UniformWrite)
        ensures
            final(self)@ == (GameView {
                camera: old(self)@.camera.apply(BundleChange::Update(view_proj)),
                ..old(self)@
            }),
            final(self).capabilities() == old(self).capabilities(),
            write.offset == 0,
            write.words@ == final(self)@.camera.uniform.words(),
    {
        self.game.update_camera(view_proj)
    }

    /// Follows the window to `new_size`, and says whether the surface has
    /// to be configured again.
    pub fn resize(&mut self, new_size: PhysicalSize) -> (reconfigure: bool)
        ensures
            final(self)@.wf(),
            final(self)@ == old(self)@.resized(new_size),
            final(self).capabilities() == old(self).capabilities(),
            reconfigure == new_size.has_area(),
    {
        self.game.resize(new_size)
    }

    /// Takes what the caller reports of the frame in progress and says
    /// what to do next. A lost or outdated surface is answered by a resize
    /// to the current size.
    pub fn render(&mut self, event: FrameEvent) -> (action: FrameAction)
        ensures
            final(self)@.wf(),
            final(self)@ == old(self)@.after_frame_event(event),
            final(self).capabilities() == old(self).capabilities(),
            action == transition(old(self)@.frame, event).1,
    {
        proof {
            use_type_invariant(&self.game.ctx);
        }
        let action = self.frame.step(event);
        if action == FrameAction::Reconfigure {
            let size = self.game.ctx().surface_size();
            self.resize(size);
        }
        action
    }

    /// Takes a window event and says what the caller is to do.
    pub fn handle_event(&mut self, event: Event) -> (command: Command)
        ensures
            final(self)@.wf(),
            final(self)@ == old(self)@.after_event(event),
            final(self).capabilities() == old(self).capabilities(),
            command == old(self)@.command_for(event),
    {
        proof {
            use_type_invariant(&self.game.ctx);
        }
        match event {
            Event::Resized(size) | Event::ScaleFactorChanged(size) => {
                if self.resize(size) {
                    Command::Configure
                } else {
                    Command::Nothing
                }
            },
            Event::CloseRequested => Command::Exit,
            Event::RedrawRequested => Command::Frame(self.render(FrameEvent::Tick)),
            Event::MainEventsCleared => Command::RequestRedraw,
            Event::Other => Command::Nothing,
        }
    }
}

/// Whatever the game is told, the depth buffer keeps the extent of the
/// surface configuration, and the configuration stays the one chosen for
/// the recorded window size.
pub proof fn lemma_events_preserve_wf(game: GameView, event: Event, report: FrameEvent)
    requires
        game.wf(),
    ensures
        game.after_event(event).wf(),
        game.after_frame_event(report).wf(),
{
}

/// A report to the frame loop never changes the surface configuration, the
/// depth buffer or the recorded window size, whatever it asks for.
pub proof fn lemma_frame_events_keep_context(game: GameView, report: FrameEvent)
    requires
        game.wf(),
    ensures
        game.after_frame_event(report).ctx == game.ctx,
{
}

/// Once the frame loop has stopped, a redraw request starts no frame.
pub proof fn lemma_no_frames_after_shutdown(game: GameView)
    requires
        game.frame == FrameState::Stopped,
    ensures
        game.command_for(Event::RedrawRequested) == Command::Frame(FrameAction::Ignore),
        game.after_event(Event::RedrawRequested) == game,
{
}

} // verus!
