//! The lifecycle coordinator: the state machine that reacts to lifecycle and
//! window events, decides when the surface is configured, when a frame is
//! drawn and when a redraw is asked for.
//!
//! The coordinator performs no platform or GPU work itself. Each entry point
//! takes what happened, moves the state, and answers with what the host has
//! to do next; the host reports back what came of it.

use vstd::prelude::*;
use wgpu::TextureFormat;
use crate::geometry::{PhysicalSize, ScaleFactor, Viewport};
use crate::input::{Cursor, InputEvent, InputState, InputView, Modifiers};
use crate::queue::EventQueue;
use crate::surface::{
    preferred_format,
    preferred_format_of,
    FrameError,
    SurfaceConfig,
    SurfaceConfigView,
};

verus! {

/// What the coordinator knows of the live window and its surface.
#[derive(Clone, Copy, Debug, PartialEq, Eq)]
pub struct Window {
    /// The pixel format negotiated when the surface was acquired.
    pub format: TextureFormat,
    /// The viewport that layout and rendering currently go by.
    pub viewport: Viewport,
    /// The size the surface was last configured with, if it ever was.
    pub configured: Option<PhysicalSize>,
    /// The latest resize that the surface has not been configured for yet.
    pub pending: Option<Viewport>,
}

impl Window {
    /// The window as it stands right after its surface was acquired: the
    /// surface is configured if, and only if, the window has an area.
    pub open spec fn opened(format: TextureFormat, viewport: Viewport) -> Window {
        Window {
            format,
            viewport,
            configured: if viewport.physical.is_drawable() {
                Some(viewport.physical)
            } else {
                None
            },
            pending: None,
        }
    }

    /// A frame may be drawn: no resize is waiting, and the surface is
    /// configured with the viewport's own, non-empty physical size.
    pub open spec fn ready(self) -> bool {
        &&& self.pending is None
        &&& self.viewport.physical.is_drawable()
        &&& self.configured == Some(self.viewport.physical)
    }

    /// The window after the waiting resize, if any, has been taken over.
    /// The surface counts as configured anew only for a size with an area.
    pub open spec fn settled(self) -> Window {
        match self.pending {
            Some(viewport) => Window {
                format: self.format,
                viewport,
                configured: if viewport.physical.is_drawable() {
                    Some(viewport.physical)
                } else {
                    self.configured
                },
                pending: None,
            },
            None => self,
        }
    }

    /// The configuration the surface has to be given when the waiting
    /// resize is taken over.
    pub open spec fn reconfiguration(self) -> Option<SurfaceConfigView> {
        match self.pending {
            Some(viewport) => if viewport.physical.is_drawable() {
                Some(SurfaceConfigView::for_size(self.format, viewport.physical))
            } else {
                None
            },
            None => None,
        }
    }

    /// Whether a frame may be drawn.
    pub fn is_ready(&self) -> (ready: bool)
        ensures
            ready == self.ready(),
    {
        match (self.pending, self.configured) {
            (None, Some(size)) => self.viewport.physical.drawable()
                && size.width == self.viewport.physical.width
                && size.height == self.viewport.physical.height,
            _ => false,
        }
    }
}

/// Where the coordinator stands in the life of the process.
#[derive(Clone, Copy, Debug, PartialEq, Eq)]
pub enum Phase {
    /// No window has been granted yet.
    Uninitialized,
    /// Window and surface are live.
    Active(Window),
    /// The platform took window and surface back; all GPU state is dropped.
    Suspended,
    /// Terminal: nothing is dispatched any more.
    Exiting,
}

/// A window event, reduced to what the coordinator reads of it.
#[derive(Clone, Copy, Debug, PartialEq, Eq)]
pub enum WindowEvent {
    /// The user or the platform asked to close the window.
    CloseRequested,
    /// The platform asks for a frame.
    RedrawRequested,
    /// The window has a new physical size; `scale` is the scale factor the
    /// platform reports along with it.
    Resized { size: PhysicalSize, scale: ScaleFactor },
    /// Pointer, touch, key or modifier input.
    Input(InputEvent),
    /// Text composition by an input method.
    Ime,
    /// Any other window event.
    Other,
}

/// What the host has to do after a window event.
#[derive(Debug, PartialEq, Eq)]
pub enum Directive {
    /// Nothing: there is no live window, or the coordinator is exiting.
    Ignore,
    /// Release every resource and leave the dispatch loop.
    Exit,
    /// Configure the surface as given, if a configuration is given; then
    /// acquire the next frame and report the outcome.
    Frame(Option<SurfaceConfig>),
    /// Draw nothing: the surface has no area to present to.
    SkipFrame,
    /// Normalize the event and enqueue what comes of it.
    Translate,
}

/// The mathematical content of a `Directive`.
pub ghost enum DirectiveView {
    Ignore,
    Exit,
    Frame(Option<SurfaceConfigView>),
    SkipFrame,
    Translate,
}

/// The content of a configuration that may be absent.
pub open spec fn config_view(config: Option<SurfaceConfig>) -> Option<SurfaceConfigView> {
    match config {
        Some(config) => Some(config@),
        None => None,
    }
}

/// The content of the answer to an activation.
pub open spec fn activation_view(result: Result<Option<SurfaceConfig>, ActivationError>) -> Result<
    Option<SurfaceConfigView>,
    ActivationError,
> {
    match result {
        Ok(config) => Ok(config_view(config)),
        Err(error) => Err(error),
    }
}

/// The content of a batch that may be absent.
pub open spec fn batch_view<E>(batch: Option<Vec<E>>) -> Option<Seq<E>> {
    match batch {
        Some(batch) => Some(batch@),
        None => None,
    }
}

impl View for Directive {
    type V = DirectiveView;

    open spec fn view(&self) -> DirectiveView {
        match *self {
            Directive::Ignore => DirectiveView::Ignore,
            Directive::Exit => DirectiveView::Exit,
            Directive::Frame(config) => DirectiveView::Frame(config_view(config)),
            Directive::SkipFrame => DirectiveView::SkipFrame,
            Directive::Translate => DirectiveView::Translate,
        }
    }
}

/// What the host has to do once it knows whether a frame could be acquired.
#[derive(Clone, Copy, Debug, PartialEq, Eq, Structural)]
pub enum FrameAction {
    /// Draw into the frame and present it, step by step as `render_steps`
    /// lists them.
    Render,
    /// Give the frame up and ask the platform for one more redraw.
    RequestRedraw,
    /// Stop the process with a diagnostic: rendering cannot go on.
    Fatal,
    /// Drop the frame, if there is one, without presenting it.
    Discard,
}

/// One step of drawing an acquired frame.
#[derive(Clone, Copy, Debug, PartialEq, Eq, Structural)]
pub enum RenderStep {
    /// Open the one command recording of the frame.
    OpenRecording,
    /// Record the pass that clears to the program's background colour and
    /// draws the custom scene.
    DrawScene,
    /// Record the UI's drawable tree on top, into the same recording.
    CompositeUi,
    /// Submit the recording.
    Submit,
    /// Present the frame.
    Present,
    /// Set the cursor shape the UI asks for.
    UpdateCursor,
}

/// The steps of drawing one frame, in the order they are taken: the scene
/// and then the UI go into one recording, which is submitted before the
/// frame is presented.
pub open spec fn render_sequence() -> Seq<RenderStep> {
    seq![
        RenderStep::OpenRecording,
        RenderStep::DrawScene,
        RenderStep::CompositeUi,
        RenderStep::Submit,
        RenderStep::Present,
        RenderStep::UpdateCursor,
    ]
}

/// The steps the host takes, in this order, when it is told to render.
pub fn render_steps() -> (steps: Vec<RenderStep>)
    ensures
        steps@ == render_sequence(),
{
    let mut steps: Vec<RenderStep> = Vec::new();
    steps.push(RenderStep::OpenRecording);
    steps.push(RenderStep::DrawScene);
    steps.push(RenderStep::CompositeUi);
    steps.push(RenderStep::Submit);
    steps.push(RenderStep::Present);
    steps.push(RenderStep::UpdateCursor);
    assert(steps@ =~= render_sequence());
    steps
}

/// What the host has to do before it goes to sleep.
#[derive(Clone, Copy, Debug, PartialEq, Eq, Structural)]
pub enum IdleAction {
    /// Sleep until the next event.
    Wait,
    /// Ask the platform for a redraw.
    RequestRedraw,
    /// Leave the dispatch loop.
    Exit,
}

/// What the host has to do when the platform takes the surface back.
#[derive(Clone, Copy, Debug, PartialEq, Eq, Structural)]
pub enum SuspendAction {
    /// Drop window, surface and every GPU resource.
    ReleaseSurface,
    /// There is nothing to drop.
    Nothing,
}

/// Why a surface was not taken over.
#[derive(Clone, Copy, Debug, PartialEq, Eq, Structural)]
pub enum ActivationError {
    /// Window and surface are live already.
    AlreadyActive,
    /// The coordinator is exiting.
    Exiting,
    /// The surface offers no pixel format at all.
    NoSurfaceFormat,
}

/// The mathematical content of a `Coordinator`.
pub ghost struct CoordinatorView<E> {
    pub phase: Phase,
    pub input: InputView,
    pub queue: Seq<E>,
    pub redraw_needed: bool,
}

impl<E> CoordinatorView<E> {
    /// The coordinator of a process that has just started.
    pub open spec fn initial() -> Self {
        CoordinatorView {
            phase: Phase::Uninitialized,
            input: InputView::initial(),
            queue: Seq::empty(),
            redraw_needed: false,
        }
    }

    /// A resume signal has to be answered by acquiring window and surface.
    pub open spec fn needs_surface(self) -> bool {
        self.phase is Uninitialized || self.phase is Suspended
    }

    /// The format a newly acquired surface is taken over with, or why it is
    /// not taken over.
    pub open spec fn negotiate(self, formats: Seq<TextureFormat>) -> Result<
        TextureFormat,
        ActivationError,
    > {
        match self.phase {
            Phase::Active(_) => Err(ActivationError::AlreadyActive),
            Phase::Exiting => Err(ActivationError::Exiting),
            _ => match preferred_format_of(formats) {
                Some(format) => Ok(format),
                None => Err(ActivationError::NoSurfaceFormat),
            },
        }
    }

    /// The state after a surface that offers `formats` was acquired for a
    /// window of the given size and scale factor. The input state starts
    /// over with the new window; queue and redraw flag are kept.
    pub open spec fn activated(
        self,
        size: PhysicalSize,
        scale: ScaleFactor,
        formats: Seq<TextureFormat>,
    ) -> Self {
        match self.negotiate(formats) {
            Ok(format) => CoordinatorView {
                phase: Phase::Active(Window::opened(format, Viewport { physical: size, scale })),
                input: InputView::initial(),
                ..self
            },
            Err(_) => self,
        }
    }

    /// The configuration to give the newly acquired surface, if the window
    /// has an area, or why the surface is not taken over.
    pub open spec fn activation(
        self,
        size: PhysicalSize,
        formats: Seq<TextureFormat>,
    ) -> Result<Option<SurfaceConfigView>, ActivationError> {
        match self.negotiate(formats) {
            Ok(format) => Ok(
                if size.is_drawable() {
                    Some(SurfaceConfigView::for_size(format, size))
                } else {
                    None
                },
            ),
            Err(error) => Err(error),
        }
    }

    /// The state after the platform took the surface back.
    pub open spec fn suspended(self) -> Self {
        match self.phase {
            Phase::Active(_) => CoordinatorView { phase: Phase::Suspended, ..self },
            _ => self,
        }
    }

    /// What the host has to do when the platform takes the surface back.
    pub open spec fn suspension(self) -> SuspendAction {
        match self.phase {
            Phase::Active(_) => SuspendAction::ReleaseSurface,
            _ => SuspendAction::Nothing,
        }
    }

    /// The state after a window event.
    ///
    /// A close request ends everything, in any phase. Every other event
    /// counts only while a window is live: a resize is noted, not applied,
    /// and marks a redraw as needed; a redraw request takes the noted
    /// resize over and, when there is nothing to present to, completes at
    /// once; input goes into the input state.
    pub open spec fn after_window_event(self, event: WindowEvent) -> Self {
        match event {
            WindowEvent::CloseRequested => CoordinatorView { phase: Phase::Exiting, ..self },
            _ => match self.phase {
                Phase::Active(window) => match event {
                    WindowEvent::RedrawRequested => CoordinatorView {
                        phase: Phase::Active(window.settled()),
                        redraw_needed: self.redraw_needed && window.settled().ready(),
                        ..self
                    },
                    WindowEvent::Resized { size, scale } => CoordinatorView {
                        phase: Phase::Active(
                            Window {
                                pending: Some(Viewport { physical: size, scale }),
                                ..window
                            },
                        ),
                        redraw_needed: true,
                        ..self
                    },
                    WindowEvent::Input(input) => CoordinatorView {
                        input: self.input.after(input),
                        ..self
                    },
                    _ => self,
                },
                _ => self,
            },
        }
    }

    /// The state after a sequence of window events, taken in order.
    pub open spec fn after_window_events(self, events: Seq<WindowEvent>) -> Self
        decreases events.len(),
    {
        if events.len() == 0 {
            self
        } else {
            self.after_window_events(events.drop_last()).after_window_event(events.last())
        }
    }

    /// What the host has to do after a window event.
    pub open spec fn directive(self, event: WindowEvent) -> DirectiveView {
        match event {
            WindowEvent::CloseRequested => DirectiveView::Exit,
            _ => match self.phase {
                Phase::Active(window) => match event {
                    WindowEvent::RedrawRequested => if window.settled().ready() {
                        DirectiveView::Frame(window.reconfiguration())
                    } else {
                        DirectiveView::SkipFrame
                    },
                    _ => DirectiveView::Translate,
                },
                _ => DirectiveView::Ignore,
            },
        }
    }

    /// The outcome of a frame acquisition counts: a window is live and a
    /// frame may be drawn.
    pub open spec fn awaits_frame(self) -> bool {
        self.phase matches Phase::Active(window) && window.ready()
    }

    /// The state after the host reported whether a frame could be acquired.
    /// Running out of memory ends everything; any other outcome completes
    /// the redraw cycle.
    pub open spec fn after_frame(self, outcome: Result<(), FrameError>) -> Self {
        if self.awaits_frame() {
            match outcome {
                Ok(_) => CoordinatorView { redraw_needed: false, ..self },
                Err(error) => if error.is_fatal() {
                    CoordinatorView { phase: Phase::Exiting, ..self }
                } else {
                    CoordinatorView { redraw_needed: false, ..self }
                },
            }
        } else {
            self
        }
    }

    /// What the host has to do once it knows whether a frame could be
    /// acquired.
    pub open spec fn frame_action(self, outcome: Result<(), FrameError>) -> FrameAction {
        if self.awaits_frame() {
            match outcome {
                Ok(_) => FrameAction::Render,
                Err(error) => if error.is_fatal() {
                    FrameAction::Fatal
                } else {
                    FrameAction::RequestRedraw
                },
            }
        } else {
            FrameAction::Discard
        }
    }

    /// The state after a normalized event arrived.
    pub open spec fn enqueued(self, event: E) -> Self {
        CoordinatorView { queue: self.queue.push(event), ..self }
    }

    /// The state after a sequence of normalized events arrived, in order.
    pub open spec fn enqueued_all(self, events: Seq<E>) -> Self
        decreases events.len(),
    {
        if events.len() == 0 {
            self
        } else {
            self.enqueued_all(events.drop_last()).enqueued(events.last())
        }
    }

    /// The state after the queue was drained for an update pass. Draining
    /// an empty queue changes nothing; otherwise the queue is left empty and
    /// a redraw is needed.
    pub open spec fn drained(self) -> Self {
        if self.queue.len() == 0 {
            self
        } else {
            CoordinatorView { queue: Seq::empty(), redraw_needed: true, ..self }
        }
    }

    /// What the drain hands to the update pass: everything that is pending,
    /// oldest first, or nothing at all when nothing is pending, in which
    /// case no update pass is due.
    pub open spec fn update_batch(self) -> Option<Seq<E>> {
        if self.queue.len() == 0 {
            None
        } else {
            Some(self.queue)
        }
    }

    /// What the host has to do before it goes to sleep.
    pub open spec fn idle_action(self) -> IdleAction {
        match self.phase {
            Phase::Exiting => IdleAction::Exit,
            Phase::Active(_) => if self.redraw_needed {
                IdleAction::RequestRedraw
            } else {
                IdleAction::Wait
            },
            _ => IdleAction::Wait,
        }
    }
}

/// One thing that happens to a coordinator: a call of one of its entry
/// points that may change it, with the arguments of the call.
pub ghost enum Step<E> {
    Activate { size: PhysicalSize, scale: ScaleFactor, formats: Seq<TextureFormat> },
    Suspend,
    Window(WindowEvent),
    Frame(Result<(), FrameError>),
    Enqueue(E),
    Drain,
}

impl<E> CoordinatorView<E> {
    /// The state after one step.
    pub open spec fn after_step(self, step: Step<E>) -> Self {
        match step {
            Step::Activate { size, scale, formats } => self.activated(size, scale, formats),
            Step::Suspend => self.suspended(),
            Step::Window(event) => self.after_window_event(event),
            Step::Frame(outcome) => self.after_frame(outcome),
            Step::Enqueue(event) => self.enqueued(event),
            Step::Drain => self.drained(),
        }
    }

    /// The state after a run of steps, taken in order.
    pub open spec fn after_steps(self, steps: Seq<Step<E>>) -> Self
        decreases steps.len(),
    {
        if steps.len() == 0 {
            self
        } else {
            self.after_steps(steps.drop_last()).after_step(steps.last())
        }
    }

    /// The configuration the host is answered with at a step, if the step
    /// has the surface configured.
    pub open spec fn configuration_at(self, step: Step<E>) -> Option<SurfaceConfigView> {
        match step {
            Step::Activate { size, scale, formats } => match self.activation(size, formats) {
                Ok(config) => config,
                Err(_) => None,
            },
            Step::Window(event) => match self.directive(event) {
                DirectiveView::Frame(config) => config,
                _ => None,
            },
            _ => None,
        }
    }
}

/// Owns the lifecycle phase, the input state, the pending event queue and
/// the redraw flag of the process's one window.
pub struct Coordinator<E> {
    phase: Phase,
    input: InputState,
    queue: EventQueue<E>,
    redraw_needed: bool,
}

impl<E> View for Coordinator<E> {
    type V = CoordinatorView<E>;

    closed spec fn view(&self) -> CoordinatorView<E> {
        CoordinatorView {
            phase: self.phase,
            input: self.input@,
            queue: self.queue@,
            redraw_needed: self.redraw_needed,
        }
    }
}

impl<E> Coordinator<E> {
    /// The coordinator of a process that has just started.
    pub fn new() -> (coordinator: Self)
        ensures
            coordinator@ == CoordinatorView::<E>::initial(),
    {
        Coordinator {
            phase: Phase::Uninitialized,
            input: InputState::new(),
            queue: EventQueue::new(),
            redraw_needed: false,
        }
    }

    /// Whether a resume signal has to be answered by acquiring window and
    /// surface.
    pub fn needs_surface(&self) -> (needed: bool)
        ensures
            needed == self@.needs_surface(),
    {
        match self.phase {
            Phase::Uninitialized => true,
            Phase::Suspended => true,
            _ => false,
        }
    }

    /// Takes over a surface that was acquired for a window of the given
    /// size and scale factor and that offers `formats`. On success the
    /// coordinator is active, and the answer is the configuration to give
    /// the surface, absent for a window without an area.
    pub fn activate(
        &mut self,
        size: PhysicalSize,
        scale: ScaleFactor,
        formats: &Vec<TextureFormat>,
    ) -> (result: Result<Option<SurfaceConfig>, ActivationError>)
        ensures
            final(self)@ == old(self)@.activated(size, scale, formats@),
            activation_view(result) == old(self)@.activation(size, formats@),
    {
        match self.phase {
            Phase::Active(_) => Err(ActivationError::AlreadyActive),
            Phase::Exiting => Err(ActivationError::Exiting),
            _ => match preferred_format(formats) {
                Some(format) => {
                    let viewport = Viewport::with_physical_size(size, scale);
                    if size.drawable() {
                        self.phase = Phase::Active(
                            Window { format, viewport, configured: Some(size), pending: None },
                        );
                        self.input = InputState::new();
                        Ok(Some(SurfaceConfig::for_size(format, size)))
                    } else {
                        self.phase = Phase::Active(
                            Window { format, viewport, configured: None, pending: None },
                        );
                        self.input = InputState::new();
                        Ok(None)
                    }
                },
                None => Err(ActivationError::NoSurfaceFormat),
            },
        }
    }

    /// Notes that the platform took the surface back.
    pub fn suspend(&mut self) -> (action: SuspendAction)
        ensures
            final(self)@ == old(self)@.suspended(),
            action == old(self)@.suspension(),
    {
        match self.phase {
            Phase::Active(_) => {
                self.phase = Phase::Suspended;
                SuspendAction::ReleaseSurface
            },
            _ => SuspendAction::Nothing,
        }
    }

    /// Takes a window event and answers with what the host has to do.
    pub fn window_event(&mut self, event: WindowEvent) -> (directive: Directive)
        ensures
            final(self)@ == old(self)@.after_window_event(event),
            directive@ == old(self)@.directive(event),
    {
        match event {
            WindowEvent::CloseRequested => {
                self.phase = Phase::Exiting;
                Directive::Exit
            },
            _ => match self.phase {
                Phase::Active(window) => match event {
                    WindowEvent::RedrawRequested => self.redraw(window),
                    WindowEvent::Resized { size, scale } => {
                        self.phase = Phase::Active(
                            Window {
                                format: window.format,
                                viewport: window.viewport,
                                configured: window.configured,
                                pending: Some(Viewport::with_physical_size(size, scale)),
                            },
                        );
                        self.redraw_needed = true;
                        Directive::Translate
                    },
                    WindowEvent::Input(input) => {
                        self.input.apply(input);
                        Directive::Translate
                    },
                    _ => Directive::Translate,
                },
                _ => Directive::Ignore,
            },
        }
    }

    /// Serves a redraw request for the live `window`: takes the waiting
    /// resize over, and asks for a frame if there is an area to present to.
    fn redraw(&mut self, window: Window) -> (directive: Directive)
        requires
            old(self)@.phase == Phase::Active(window),
        ensures
            final(self)@ == old(self)@.after_window_event(WindowEvent::RedrawRequested),
            directive@ == old(self)@.directive(WindowEvent::RedrawRequested),
    {
        let (settled, reconfigure) = match window.pending {
            Some(viewport) => {
                if viewport.physical.drawable() {
                    (
                        Window {
                            format: window.format,
                            viewport,
                            configured: Some(viewport.physical),
                            pending: None,
                        },
                        Some(SurfaceConfig::for_size(window.format, viewport.physical)),
                    )
                } else {
                    (
                        Window {
                            format: window.format,
                            viewport,
                            configured: window.configured,
                            pending: None,
                        },
                        None,
                    )
                }
            },
            None => (window, None),
        };
        self.phase = Phase::Active(settled);
        if settled.is_ready() {
            Directive::Frame(reconfigure)
        } else {
            self.redraw_needed = false;
            Directive::SkipFrame
        }
    }

    /// Takes the outcome of a frame acquisition and answers with what the
    /// host has to do with the frame.
    pub fn frame_outcome(&mut self, outcome: Result<(), FrameError>) -> (action: FrameAction)
        ensures
            final(self)@ == old(self)@.after_frame(outcome),
            action == old(self)@.frame_action(outcome),
    {
        let ready = match self.phase {
            Phase::Active(window) => window.is_ready(),
            _ => false,
        };
        if !ready {
            return FrameAction::Discard;
        }
        match outcome {
            Ok(_) => {
                self.redraw_needed = false;
                FrameAction::Render
            },
            Err(error) => {
                if error.fatal() {
                    self.phase = Phase::Exiting;
                    FrameAction::Fatal
                } else {
                    self.redraw_needed = false;
                    FrameAction::RequestRedraw
                }
            },
        }
    }

    /// Appends a normalized event to the pending event queue.
    pub fn enqueue(&mut self, event: E)
        ensures
            final(self)@ == old(self)@.enqueued(event),
    {
        self.queue.push(event);
    }

    /// Drains the pending event queue for one update pass: hands over, in
    /// arrival order, every event that is pending, and marks a redraw as
    /// needed. When nothing is pending there is no batch, no update pass is
    /// due, and nothing changes.
    pub fn drain(&mut self) -> (batch: Option<Vec<E>>)
        ensures
            final(self)@ == old(self)@.drained(),
            batch_view(batch) == old(self)@.update_batch(),
    {
        if self.queue.is_empty() {
            None
        } else {
            self.redraw_needed = true;
            Some(self.queue.drain())
        }
    }

    /// Answers with what the host has to do before it goes to sleep.
    pub fn about_to_wait(&self) -> (action: IdleAction)
        ensures
            action == self@.idle_action(),
    {
        match self.phase {
            Phase::Exiting => IdleAction::Exit,
            Phase::Active(_) => if self.redraw_needed {
                IdleAction::RequestRedraw
            } else {
                IdleAction::Wait
            },
            _ => IdleAction::Wait,
        }
    }

    /// The current phase.
    pub fn phase(&self) -> (phase: Phase)
        ensures
            phase == self@.phase,
    {
        self.phase
    }

    /// The viewport of the live window, if there is one.
    pub fn viewport(&self) -> (viewport: Option<Viewport>)
        ensures
            viewport == match self@.phase {
                Phase::Active(window) => Some(window.viewport),
                _ => None,
            },
    {
        match self.phase {
            Phase::Active(window) => Some(window.viewport),
            _ => None,
        }
    }

    /// The modifier keys that are held down.
    pub fn modifiers(&self) -> (held: Modifiers)
        ensures
            held@ == self@.input.modifiers,
    {
        self.input.modifiers()
    }

    /// What the update step is told about the pointer.
    pub fn cursor(&self) -> (cursor: Cursor)
        ensures
            cursor == self@.input.cursor(),
    {
        self.input.cursor()
    }

    /// Whether a redraw is needed.
    pub fn redraw_needed(&self) -> (needed: bool)
        ensures
            needed == self@.redraw_needed,
    {
        self.redraw_needed
    }

    /// How many normalized events are pending.
    pub fn pending_events(&self) -> (count: usize)
        ensures
            count == self@.queue.len(),
    {
        self.queue.len()
    }
}

} // verus!
