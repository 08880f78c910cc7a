//! The application shell around the renderer: what to do when the window
//! system resumes the application or delivers a window event.

use crate::error::RendererError;
use crate::renderer::Action;
use crate::renderer::Event;
use crate::renderer::Phase;
use crate::renderer::Renderer;
use crate::renderer::RendererModel;
use vstd::prelude::*;

verus! {

/// The title of the application's window.
pub const WINDOW_TITLE: &'static str = "application";

/// The initial width of the window, in logical pixels.
pub const WINDOW_WIDTH: u32 = 800;

/// The initial height of the window, in logical pixels.
pub const WINDOW_HEIGHT: u32 = 600;

/// What is logged when the window is closed.
pub const CLOSE_MESSAGE: &'static str = "the close button was pressed; stopping";

/// What is logged when the renderer starts to give up its resources.
pub const CLEANUP_MESSAGE: &'static str = "cleaning up the renderer!";

/// The attributes a window is created with.
#[derive(Clone, Copy, Debug)]
pub struct WindowRequest {
    pub title: &'static str,
    /// Width in logical pixels.
    pub width: u32,
    /// Height in logical pixels.
    pub height: u32,
}

/// A window event, as far as the application tells events apart.
#[derive(Clone, Copy, Debug, PartialEq, Eq, Structural)]
pub enum WindowSignal {
    /// The user asked to close the window.
    CloseRequested,
    /// The window is to be drawn again.
    RedrawRequested,
    /// Any other event.
    Other,
}

/// What the event loop is to do after an event.
#[derive(Clone, Copy, Debug, PartialEq, Eq, Structural)]
pub enum LoopCommand {
    /// Log the close message and leave the loop.
    Exit,
    /// Ask the window for another redraw.
    RequestRedraw,
    /// Carry on.
    Nothing,
}

/// An application as a mathematical value.
pub struct AppModel {
    /// Whether the application has a window.
    pub window: bool,
    /// The application's renderer, once it has one.
    pub renderer: Option<RendererModel>,
}

impl AppModel {
    /// The application after the window system told it `signal`: a request
    /// to close shuts the renderer down; nothing else changes anything.
    pub open spec fn after(self, signal: WindowSignal) -> AppModel {
        match (signal, self.renderer) {
            (WindowSignal::CloseRequested, Some(renderer)) => AppModel {
                renderer: Some(renderer.after(Event::Shutdown)),
                ..self
            },
            _ => self,
        }
    }

    /// What the event loop is to do about `signal`: leave on a request to
    /// close; ask for the next redraw on a redraw, if there is a window;
    /// nothing otherwise.
    pub open spec fn command(self, signal: WindowSignal) -> LoopCommand {
        match signal {
            WindowSignal::CloseRequested => LoopCommand::Exit,
            WindowSignal::RedrawRequested => if self.window {
                LoopCommand::RequestRedraw
            } else {
                LoopCommand::Nothing
            },
            WindowSignal::Other => LoopCommand::Nothing,
        }
    }

    /// The driver call the renderer asks for next; none without a renderer.
    pub open spec fn pending(self) -> Action {
        match self.renderer {
            Some(renderer) => renderer.pending(),
            None => Action::Done,
        }
    }

    /// Why the renderer's construction was abandoned, if there is a renderer
    /// and it was.
    pub open spec fn failure(self) -> Option<RendererError> {
        match self.renderer {
            Some(renderer) => renderer.failure,
            None => None,
        }
    }

    /// There is a renderer and it is ready.
    pub open spec fn ready(self) -> bool {
        match self.renderer {
            Some(renderer) => renderer.phase == Phase::Ready,
            None => false,
        }
    }

    /// The application after its renderer was told `event`.
    pub open spec fn after_renderer_event(self, event: Event) -> AppModel {
        match self.renderer {
            Some(renderer) => AppModel { renderer: Some(renderer.after(event)), ..self },
            None => self,
        }
    }
}

/// The application: a window, once resumed, and the renderer that draws to
/// it.
pub struct App {
    window: bool,
    renderer: Option<Renderer>,
}

impl View for App {
    type V = AppModel;

    closed spec fn view(&self) -> AppModel {
        AppModel {
            window: self.window,
            renderer: match self.renderer {
                Some(renderer) => Some(renderer@),
                None => None,
            },
        }
    }
}

impl App {
    /// An application that has neither a window nor a renderer yet.
    pub fn new() -> (app: App)
        ensures
            app@ == (AppModel { window: false, renderer: None }),
    {
        App { window: false, renderer: None }
    }

    /// The window system has resumed the application: it gets a window with
    /// the attributes returned, and a renderer that owns nothing yet.
    pub fn resumed(&mut self, debug_enabled: bool) -> (request: WindowRequest)
        ensures
            request == (WindowRequest {
                title: WINDOW_TITLE,
                width: WINDOW_WIDTH,
                height: WINDOW_HEIGHT,
            }),
            final(self)@ == (AppModel {
                window: true,
                renderer: Some(RendererModel::initial(debug_enabled)),
            }),
    {
        self.window = true;
        self.renderer = Some(Renderer::new(debug_enabled));
        WindowRequest { title: WINDOW_TITLE, width: WINDOW_WIDTH, height: WINDOW_HEIGHT }
    }

    /// Takes in a window event and says what the event loop is to do.
    pub fn window_event(&mut self, signal: WindowSignal) -> (command: LoopCommand)
        ensures
            final(self)@ == old(self)@.after(signal),
            command == old(self)@.command(signal),
    {
        match signal {
            WindowSignal::CloseRequested => {
                match &mut self.renderer {
                    Some(renderer) => {
                        renderer.handle(Event::Shutdown);
                    },
                    None => {},
                }
                LoopCommand::Exit
            },
            WindowSignal::RedrawRequested => {
                if self.window {
                    LoopCommand::RequestRedraw
                } else {
                    LoopCommand::Nothing
                }
            },
            WindowSignal::Other => LoopCommand::Nothing,
        }
    }

    /// The driver call the renderer asks for next.
    pub fn renderer_action(&self) -> (action: Action)
        ensures
            action == self@.pending(),
    {
        match &self.renderer {
            Some(renderer) => renderer.next_action(),
            None => Action::Done,
        }
    }

    /// Tells the renderer what happened and names the driver call it asks
    /// for next.
    pub fn renderer_event(&mut self, event: Event) -> (action: Action)
        ensures
            final(self)@ == old(self)@.after_renderer_event(event),
            action == final(self)@.pending(),
    {
        match &mut self.renderer {
            Some(renderer) => renderer.handle(event),
            None => Action::Done,
        }
    }

    /// Why the renderer's construction was abandoned, if it was.
    pub fn renderer_failure(&self) -> (failure: Option<RendererError>)
        ensures
            failure == self@.failure(),
    {
        match &self.renderer {
            Some(renderer) => renderer.failure(),
            None => None,
        }
    }

    /// Whether there is a renderer and every resource it owns exists.
    pub fn renderer_ready(&self) -> (ready: bool)
        ensures
            ready == self@.ready(),
    {
        match &self.renderer {
            Some(renderer) => renderer.is_ready(),
            None => false,
        }
    }

    /// Draws a frame with the renderer, if there is one.
    pub fn draw(&self) {
        match &self.renderer {
            Some(renderer) => renderer.draw(),
            None => {},
        }
    }
}

} // verus!
