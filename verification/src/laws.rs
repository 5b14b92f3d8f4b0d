//! What holds of the coordinator over whole runs: statements about several
//! steps at once, proved from the transitions that the entry points of
//! `lifecycle` are specified by.

use vstd::prelude::*;
use wgpu::TextureFormat;
use crate::geometry::{PhysicalSize, ScaleFactor, Viewport};
use crate::lifecycle::{
    ActivationError,
    CoordinatorView,
    DirectiveView,
    FrameAction,
    IdleAction,
    Phase,
    Step,
    Window,
    WindowEvent,
};
use crate::surface::{
    lemma_preferred_format_of,
    preferred_format_of,
    FrameError,
    SurfaceConfigView,
};

verus! {

/// The resize events that report `resizes`, one for each, in order.
pub open spec fn resize_events(resizes: Seq<Viewport>) -> Seq<WindowEvent> {
    Seq::new(
        resizes.len(),
        |i: int| WindowEvent::Resized { size: resizes[i].physical, scale: resizes[i].scale },
    )
}

/// A run of resizes on a live window only notes the last of them: the
/// window keeps its viewport and its configuration, the last resize is the
/// one that waits, and a redraw is needed.
pub proof fn lemma_resizes_note_the_last<E>(
    c: CoordinatorView<E>,
    window: Window,
    resizes: Seq<Viewport>,
)
    requires
        c.phase == Phase::Active(window),
        resizes.len() > 0,
    ensures
        c.after_window_events(resize_events(resizes)) == (CoordinatorView {
            phase: Phase::Active(Window { pending: Some(resizes.last()), ..window }),
            redraw_needed: true,
            ..c
        }),
    decreases resizes.len(),
{
    let events = resize_events(resizes);
    let earlier = resizes.drop_last();
    assert(events.drop_last() =~= resize_events(earlier));
    assert(events.last() == WindowEvent::Resized {
        size: resizes.last().physical,
        scale: resizes.last().scale,
    });
    if earlier.len() == 0 {
        assert(c.after_window_events(resize_events(earlier)) == c);
    } else {
        lemma_resizes_note_the_last(c, window, earlier);
    }
}

/// Resizes coalesce. However many resizes a live window receives before a
/// redraw, none of them has the surface configured; the redraw request that
/// follows has it configured once, with the size of the last resize; and the
/// redraw request after that has it configured no more.
///
/// The last resize must leave the window an area: a surface cannot be
/// configured with an empty size, so after such a resize the redraw request
/// skips the frame instead.
pub proof fn lemma_resizes_coalesce<E>(
    c: CoordinatorView<E>,
    window: Window,
    resizes: Seq<Viewport>,
)
    requires
        c.phase == Phase::Active(window),
        resizes.len() > 0,
        resizes.last().physical.is_drawable(),
    ensures
        forall|i: int|
            0 <= i < resizes.len() ==> c.after_window_events(
                #[trigger] resize_events(resizes).take(i),
            ).directive(resize_events(resizes)[i]) == DirectiveView::Translate,
        c.after_window_events(resize_events(resizes)).directive(WindowEvent::RedrawRequested)
            == DirectiveView::Frame(
            Some(SurfaceConfigView::for_size(window.format, resizes.last().physical)),
        ),
        c.after_window_events(resize_events(resizes)).after_window_event(
            WindowEvent::RedrawRequested,
        ).directive(WindowEvent::RedrawRequested) == DirectiveView::Frame(None),
{
    let events = resize_events(resizes);
    assert forall|i: int| 0 <= i < resizes.len() implies c.after_window_events(
        #[trigger] events.take(i),
    ).directive(events[i]) == DirectiveView::Translate by {
        if i == 0 {
            assert(events.take(0).len() == 0);
            assert(c.after_window_events(events.take(0)) == c);
        } else {
            assert(events.take(i) =~= resize_events(resizes.take(i)));
            lemma_resizes_note_the_last(c, window, resizes.take(i));
        }
    }
    lemma_resizes_note_the_last(c, window, resizes);
}

/// Every event that arrives between two drains is handed to the update
/// pass by the second drain, in arrival order and exactly once: after
/// `events` have been enqueued one by one behind a drain, the next drain
/// hands over `events` and nothing else, and a drain after that hands over
/// nothing.
pub proof fn lemma_update_observes_arrivals<E>(c: CoordinatorView<E>, events: Seq<E>)
    requires
        events.len() > 0,
    ensures
        c.drained().enqueued_all(events).update_batch() == Some(events),
        c.drained().enqueued_all(events).drained().update_batch() == None::<Seq<E>>,
{
    lemma_enqueued_all_appends(c.drained(), events);
    assert(Seq::<E>::empty() + events =~= events);
}

/// Enqueuing touches the queue alone, and appends the arrivals in order.
pub proof fn lemma_enqueued_all_appends<E>(c: CoordinatorView<E>, events: Seq<E>)
    ensures
        c.enqueued_all(events) == (CoordinatorView { queue: c.queue + events, ..c }),
    decreases events.len(),
{
    if events.len() == 0 {
        assert(c.queue + events =~= c.queue);
    } else {
        lemma_enqueued_all_appends(c, events.drop_last());
        assert((c.queue + events.drop_last()).push(events.last()) =~= c.queue + events);
    }
}

/// Draining an empty queue is a no-op: there is no batch, nothing changes,
/// and in particular the redraw flag is not flipped, whichever way it
/// stood. Hence draining twice in a row is the same as draining once.
pub proof fn lemma_empty_drain_changes_nothing<E>(c: CoordinatorView<E>)
    ensures
        c.queue.len() == 0 ==> c.drained() == c && c.update_batch() == None::<Seq<E>>
            && c.drained().redraw_needed == c.redraw_needed,
        c.drained().drained() == c.drained(),
{
}

/// When a surface is taken over. Taking over succeeds exactly when no
/// window is live, the coordinator is not exiting and the surface offers at
/// least one format; each failure has its own cause.
pub proof fn lemma_activation_succeeds_when_due<E>(
    c: CoordinatorView<E>,
    size: PhysicalSize,
    formats: Seq<TextureFormat>,
)
    ensures
        c.activation(size, formats) is Ok <==> c.needs_surface() && formats.len() > 0,
        c.activation(size, formats) == Err::<Option<SurfaceConfigView>, ActivationError>(
            ActivationError::AlreadyActive,
        ) <==> c.phase is Active,
        c.activation(size, formats) == Err::<Option<SurfaceConfigView>, ActivationError>(
            ActivationError::Exiting,
        ) <==> c.phase is Exiting,
        c.activation(size, formats) == Err::<Option<SurfaceConfigView>, ActivationError>(
            ActivationError::NoSurfaceFormat,
        ) <==> c.needs_surface() && formats.len() == 0,
        c.activation(size, formats) matches Ok(config) ==> (config is Some
            <==> size.is_drawable()),
{
    lemma_preferred_format_of(formats);
}

/// A surface is only ever configured with a size that has an area, and with
/// the format that was negotiated for it: every configuration the
/// coordinator answers with, at activation or at a redraw request, says so,
/// and the window records the size it was answered with.
pub proof fn lemma_configurations_have_area<E>(
    c: CoordinatorView<E>,
    size: PhysicalSize,
    scale: ScaleFactor,
    formats: Seq<TextureFormat>,
)
    ensures
        c.activation(size, formats) matches Ok(Some(config)) ==> {
            &&& size.is_drawable()
            &&& c.activated(size, scale, formats).phase matches Phase::Active(window)
            &&& config == SurfaceConfigView::for_size(window.format, size)
            &&& window.configured == Some(size)
            &&& preferred_format_of(formats) == Some(window.format)
        },
        c.directive(WindowEvent::RedrawRequested) matches DirectiveView::Frame(Some(config)) ==> {
            &&& c.phase matches Phase::Active(before)
            &&& c.after_window_event(WindowEvent::RedrawRequested).phase matches Phase::Active(
                window,
            )
            &&& window.format == before.format
            &&& window.configured matches Some(configured)
            &&& configured.is_drawable()
            &&& config == SurfaceConfigView::for_size(before.format, configured)
        },
{
}

/// The size a surface is recorded as configured with changes only when the
/// coordinator answers with a configuration for that size: no window event
/// but a redraw request touches it, and a redraw request that answers with
/// no configuration leaves it as it was.
pub proof fn lemma_configured_size_follows_configurations<E>(
    c: CoordinatorView<E>,
    window: Window,
    event: WindowEvent,
)
    requires
        c.phase == Phase::Active(window),
        c.after_window_event(event).phase matches Phase::Active(next) && next.configured
            != window.configured,
    ensures
        event == WindowEvent::RedrawRequested,
        c.directive(event) matches DirectiveView::Frame(Some(config))
            && c.after_window_event(event).phase matches Phase::Active(next) && next.configured
            == Some(PhysicalSize { width: config.width, height: config.height }),
{
}

/// A frame is rendered, and so presented, only to a surface that has been
/// configured with a size that has an area, that size being the physical
/// size of the current viewport, with no resize waiting.
pub proof fn lemma_render_needs_configured_surface<E>(
    c: CoordinatorView<E>,
    outcome: Result<(), FrameError>,
)
    requires
        c.frame_action(outcome) == FrameAction::Render,
    ensures
        outcome is Ok,
        c.phase matches Phase::Active(window) && window.pending is None
            && window.configured == Some(window.viewport.physical)
            && window.viewport.physical.is_drawable(),
{
}

/// The redraw request that takes a resize over has the surface configured
/// before the frame is acquired, so that no frame is drawn at a stale size:
/// whenever a frame is asked for, the surface is, or is being, configured
/// with the physical size of the viewport the frame will be drawn by.
pub proof fn lemma_frame_follows_configuration<E>(c: CoordinatorView<E>, window: Window)
    requires
        c.phase == Phase::Active(window),
        c.directive(WindowEvent::RedrawRequested) is Frame,
    ensures
        c.after_window_event(WindowEvent::RedrawRequested).awaits_frame(),
        match window.pending {
            Some(viewport) => c.directive(WindowEvent::RedrawRequested) == DirectiveView::Frame(
                Some(SurfaceConfigView::for_size(window.format, viewport.physical)),
            ) && c.after_window_event(WindowEvent::RedrawRequested).phase == Phase::Active(
                Window {
                    format: window.format,
                    viewport,
                    configured: Some(viewport.physical),
                    pending: None,
                },
            ),
            None => c.directive(WindowEvent::RedrawRequested) == DirectiveView::Frame(None)
                && c.after_window_event(WindowEvent::RedrawRequested).phase == c.phase,
        },
{
}

/// A frame acquisition that fails for want of memory ends the dispatch
/// loop; one that fails for any other reason leaves the window live, asks
/// for exactly one more redraw and leaves no redraw pending besides.
pub proof fn lemma_only_out_of_memory_is_fatal<E>(c: CoordinatorView<E>, error: FrameError)
    requires
        c.awaits_frame(),
    ensures
        error == FrameError::OutOfMemory ==> c.frame_action(Err(error)) == FrameAction::Fatal
            && c.after_frame(Err(error)).phase == Phase::Exiting && c.after_frame(
            Err(error),
        ).idle_action() == IdleAction::Exit,
        error != FrameError::OutOfMemory ==> c.frame_action(Err(error))
            == FrameAction::RequestRedraw && c.after_frame(Err(error)).phase == c.phase
            && c.after_frame(Err(error)).idle_action() == IdleAction::Wait,
{
}

/// Exiting is terminal. Once the coordinator is exiting, no event, no
/// surface, no frame outcome and no suspension changes its phase, nothing is
/// configured or rendered, and the idle step says to leave the loop.
pub proof fn lemma_exiting_is_terminal<E>(c: CoordinatorView<E>)
    requires
        c.phase == Phase::Exiting,
    ensures
        forall|event: WindowEvent| #[trigger]
            c.after_window_event(event).phase == Phase::Exiting,
        forall|event: WindowEvent| #[trigger]
            c.directive(event) == DirectiveView::Ignore || c.directive(event)
                == DirectiveView::Exit,
        forall|outcome: Result<(), FrameError>| #[trigger] c.after_frame(outcome) == c,
        forall|outcome: Result<(), FrameError>| #[trigger]
            c.frame_action(outcome) == FrameAction::Discard,
        forall|size: PhysicalSize, scale: ScaleFactor, formats: Seq<TextureFormat>| #[trigger]
            c.activated(size, scale, formats) == c,
        forall|size: PhysicalSize, formats: Seq<TextureFormat>| #[trigger]
            c.activation(size, formats) == Err::<Option<SurfaceConfigView>, ActivationError>(
                ActivationError::Exiting,
            ),
        c.suspended() == c,
        !c.needs_surface(),
        c.idle_action() == IdleAction::Exit,
{
}

/// No run leaves the exiting phase: whatever happens to a coordinator that
/// is exiting, it is exiting afterwards.
pub proof fn lemma_no_run_leaves_exiting<E>(c: CoordinatorView<E>, steps: Seq<Step<E>>)
    requires
        c.phase == Phase::Exiting,
    ensures
        c.after_steps(steps).phase == Phase::Exiting,
    decreases steps.len(),
{
    if steps.len() > 0 {
        lemma_no_run_leaves_exiting(c, steps.drop_last());
    }
}

/// The redraw flag is raised by a resize of the live window and by a drain
/// that found events, and by nothing else; it is lowered when a redraw
/// request completes, with or without a frame, and by nothing else.
pub proof fn lemma_redraw_flag_moves<E>(
    c: CoordinatorView<E>,
    event: WindowEvent,
    outcome: Result<(), FrameError>,
    arrival: E,
)
    ensures
        !c.redraw_needed && c.after_window_event(event).redraw_needed ==> event is Resized
            && c.phase is Active,
        c.redraw_needed && !c.after_window_event(event).redraw_needed ==> event
            == WindowEvent::RedrawRequested && c.directive(event) == DirectiveView::SkipFrame,
        c.drained().redraw_needed == (c.redraw_needed || c.queue.len() > 0),
        c.after_frame(outcome).redraw_needed ==> c.redraw_needed,
        c.redraw_needed && !c.after_frame(outcome).redraw_needed ==> c.awaits_frame(),
        c.enqueued(arrival).redraw_needed == c.redraw_needed,
        c.suspended().redraw_needed == c.redraw_needed,
        forall|size: PhysicalSize, scale: ScaleFactor, formats: Seq<TextureFormat>| #[trigger]
            c.activated(size, scale, formats).redraw_needed == c.redraw_needed,
{
}

/// The pixel format negotiated when the surface was acquired stays the
/// format of the window for as long as the window is live.
pub proof fn lemma_format_is_kept<E>(
    c: CoordinatorView<E>,
    window: Window,
    event: WindowEvent,
    outcome: Result<(), FrameError>,
)
    requires
        c.phase == Phase::Active(window),
    ensures
        c.after_window_event(event).phase matches Phase::Active(next) ==> next.format
            == window.format,
        c.after_frame(outcome).phase matches Phase::Active(next) ==> next == window,
        c.drained().phase == c.phase,
{
}

/// The size the surface of the live window was last configured with in the
/// course of a run that starts with a new coordinator: the size of the last
/// configuration the host was answered with since the window was acquired.
/// There is none when no window is live at the end of the run, or when the
/// surface of the live window has not been configured so far.
pub open spec fn configured_in<E>(steps: Seq<Step<E>>) -> Option<PhysicalSize>
    decreases steps.len(),
{
    if steps.len() == 0 {
        None
    } else {
        let before = CoordinatorView::<E>::initial().after_steps(steps.drop_last());
        let acquired = !(before.phase is Active);
        if !(before.after_step(steps.last()).phase is Active) {
            None
        } else {
            match before.configuration_at(steps.last()) {
                Some(config) => Some(PhysicalSize { width: config.width, height: config.height }),
                None => if acquired {
                    None
                } else {
                    configured_in(steps.drop_last())
                },
            }
        }
    }
}

/// The size the platform last reported for the live window in the course of
/// a run that starts with a new coordinator: the size of the latest resize,
/// or the size the window was acquired with if it has not been resized
/// since. There is none when no window is live at the end of the run.
pub open spec fn reported_in<E>(steps: Seq<Step<E>>) -> Option<PhysicalSize>
    decreases steps.len(),
{
    if steps.len() == 0 {
        None
    } else {
        let before = CoordinatorView::<E>::initial().after_steps(steps.drop_last());
        if !(before.after_step(steps.last()).phase is Active) {
            None
        } else {
            match steps.last() {
                Step::Activate { size, scale, formats } => if before.phase is Active {
                    reported_in(steps.drop_last())
                } else {
                    Some(size)
                },
                Step::Window(WindowEvent::Resized { size, scale }) => Some(size),
                _ => reported_in(steps.drop_last()),
            }
        }
    }
}

/// The size that the live window is heading for: that of the resize that
/// waits, or else that of the viewport.
pub open spec fn heading_for(window: Window) -> PhysicalSize {
    match window.pending {
        Some(viewport) => viewport.physical,
        None => window.viewport.physical,
    }
}

/// The window's record keeps up with the run. After any run that starts
/// with a new coordinator, the size the window records as configured is the
/// size of the last configuration the host was answered with, and the size
/// the window is heading for is the size the platform last reported; with
/// no live window there is neither.
pub proof fn lemma_window_records_the_run<E>(steps: Seq<Step<E>>)
    ensures
        match CoordinatorView::<E>::initial().after_steps(steps).phase {
            Phase::Active(window) => {
                &&& window.configured == configured_in(steps)
                &&& Some(heading_for(window)) == reported_in(steps)
                &&& window.configured matches Some(size) ==> size.is_drawable()
            },
            _ => configured_in(steps) is None && reported_in(steps) is None,
        },
    decreases steps.len(),
{
    if steps.len() > 0 {
        lemma_window_records_the_run(steps.drop_last());
    }
}

/// No frame is drawn before the surface is configured, and none at a stale
/// size. After any run that starts with a new coordinator, a frame is
/// rendered only if the host has been answered with a configuration since
/// the window was acquired, and the last such configuration has the size
/// that the platform last reported for the window, a size with an area.
pub proof fn lemma_frames_are_never_stale<E>(
    steps: Seq<Step<E>>,
    outcome: Result<(), FrameError>,
)
    requires
        CoordinatorView::<E>::initial().after_steps(steps).frame_action(outcome)
            == FrameAction::Render,
    ensures
        configured_in(steps) matches Some(size) && size.is_drawable() && reported_in(steps)
            == Some(size),
{
    lemma_window_records_the_run(steps);
}

} // verus!
