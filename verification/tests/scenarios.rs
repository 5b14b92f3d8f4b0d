use wgpu::TextureFormat;
use window_host::geometry::{PhysicalSize, PointerPosition, ScaleFactor, Viewport};
use window_host::input::{
    Cursor, InputEvent, InputState, Key, KeyState, Modifier, Modifiers,
};
use window_host::lifecycle::{
    ActivationError, Coordinator, Directive, FrameAction, IdleAction, Phase, SuspendAction,
    WindowEvent,
};
use window_host::surface::{
    AlphaMode, FrameError, PresentMode, SurfaceConfig, SurfaceUsage,
};

fn scale(factor: f64) -> ScaleFactor {
    ScaleFactor::from_bits(factor.to_bits())
}

fn formats() -> Vec<TextureFormat> {
    vec![TextureFormat::Rgba8Unorm, TextureFormat::Bgra8UnormSrgb]
}

fn active(width: u32, height: u32) -> Coordinator<u32> {
    let mut coordinator = Coordinator::new();
    let result = coordinator.activate(PhysicalSize::new(width, height), scale(2.75), &formats());
    assert!(matches!(result, Ok(Some(_))));
    coordinator
}

#[test]
fn startup_configures_surface_before_any_frame() {
    let mut coordinator: Coordinator<u32> = Coordinator::new();
    assert!(coordinator.needs_surface());
    assert_eq!(coordinator.frame_outcome(Ok(())), FrameAction::Discard);
    assert_eq!(coordinator.window_event(WindowEvent::RedrawRequested), Directive::Ignore);

    let size = PhysicalSize::new(1080, 2280);
    let config = coordinator.activate(size, scale(2.75), &formats()).unwrap().unwrap();
    assert_eq!(config.width, 1080);
    assert_eq!(config.height, 2280);
    assert_eq!(config.present_mode, PresentMode::AutoVsync);
    assert_eq!(config.alpha_mode, AlphaMode::Auto);
    assert_eq!(config.usage, SurfaceUsage::RenderAttachment);
    assert_eq!(config.format, TextureFormat::Bgra8UnormSrgb);
    assert!(config.view_formats.is_empty());
    assert_eq!(config.desired_maximum_frame_latency, 2);

    let viewport = coordinator.viewport().unwrap();
    assert_eq!(viewport.physical_size(), size);
    let factor = f64::from_bits(viewport.scale_factor().bits);
    let logical_width = viewport.physical_size().width as f64 / factor;
    let logical_height = viewport.physical_size().height as f64 / factor;
    assert!((logical_width - 392.7).abs() < 0.05);
    assert!((logical_height - 829.1).abs() < 0.05);

    assert_eq!(coordinator.window_event(WindowEvent::RedrawRequested), Directive::Frame(None));
    assert_eq!(coordinator.frame_outcome(Ok(())), FrameAction::Render);
}

#[test]
fn resize_then_redraw_reconfigures_once_with_new_size() {
    let mut coordinator = active(1080, 2280);
    let resized = WindowEvent::Resized { size: PhysicalSize::new(2280, 1080), scale: scale(2.75) };
    assert_eq!(coordinator.window_event(resized), Directive::Translate);
    assert!(coordinator.redraw_needed());
    assert_eq!(
        coordinator.viewport().unwrap().physical_size(),
        PhysicalSize::new(1080, 2280)
    );

    let expected = SurfaceConfig::for_size(
        TextureFormat::Bgra8UnormSrgb,
        PhysicalSize::new(2280, 1080),
    );
    assert_eq!(
        coordinator.window_event(WindowEvent::RedrawRequested),
        Directive::Frame(Some(expected))
    );
    assert_eq!(
        coordinator.viewport().unwrap().physical_size(),
        PhysicalSize::new(2280, 1080)
    );
    assert_eq!(coordinator.frame_outcome(Ok(())), FrameAction::Render);
    assert!(!coordinator.redraw_needed());
    assert_eq!(coordinator.window_event(WindowEvent::RedrawRequested), Directive::Frame(None));
}

#[test]
fn modifier_tracking_is_observable_step_by_step() {
    let mut input = InputState::new();
    assert!(input.modifiers().is_empty());

    input.apply(InputEvent::Key { key: Key::ShiftLeft, state: KeyState::Pressed });
    assert_eq!(input.modifiers(), Modifiers::from_flags(true, false, false, false));

    input.apply(InputEvent::Key { key: Key::ControlRight, state: KeyState::Pressed });
    assert_eq!(input.modifiers(), Modifiers::from_flags(true, true, false, false));

    input.apply(InputEvent::Key { key: Key::ShiftRight, state: KeyState::Released });
    assert_eq!(input.modifiers(), Modifiers::from_flags(false, true, false, false));
    assert!(input.modifiers().contains(Modifier::Control));
    assert!(!input.modifiers().contains(Modifier::Shift));
}

#[test]
fn out_of_memory_halts_and_outdated_requests_one_redraw() {
    let mut coordinator = active(1080, 2280);
    assert_eq!(coordinator.window_event(WindowEvent::RedrawRequested), Directive::Frame(None));
    assert_eq!(
        coordinator.frame_outcome(Err(FrameError::Outdated)),
        FrameAction::RequestRedraw
    );
    assert!(matches!(coordinator.phase(), Phase::Active(_)));
    assert_eq!(coordinator.about_to_wait(), IdleAction::Wait);

    assert_eq!(coordinator.window_event(WindowEvent::RedrawRequested), Directive::Frame(None));
    assert_eq!(coordinator.frame_outcome(Err(FrameError::OutOfMemory)), FrameAction::Fatal);
    assert_eq!(coordinator.phase(), Phase::Exiting);
    assert_eq!(coordinator.about_to_wait(), IdleAction::Exit);
    assert_eq!(coordinator.window_event(WindowEvent::RedrawRequested), Directive::Ignore);
    assert_eq!(coordinator.frame_outcome(Ok(())), FrameAction::Discard);
}

#[test]
fn pointer_position_is_kept_in_physical_units() {
    let mut coordinator = active(1080, 2280);
    assert_eq!(coordinator.cursor(), Cursor::Unavailable);
    let position = PointerPosition::new(540.0f64.to_bits(), 1140.5f64.to_bits());
    let moved = WindowEvent::Input(InputEvent::PointerMoved(position));
    assert_eq!(coordinator.window_event(moved), Directive::Translate);
    assert_eq!(coordinator.cursor(), Cursor::Available(position));
    let touch = PointerPosition::new(1.0f64.to_bits(), 2.0f64.to_bits());
    coordinator.window_event(WindowEvent::Input(InputEvent::Touch(touch)));
    assert_eq!(coordinator.cursor(), Cursor::Available(touch));
}

#[test]
fn suspend_and_resume_reacquire_the_surface() {
    let mut coordinator = active(1080, 2280);
    assert!(!coordinator.needs_surface());
    assert_eq!(
        coordinator.activate(PhysicalSize::new(1, 1), scale(1.0), &formats()),
        Err(ActivationError::AlreadyActive)
    );
    assert_eq!(coordinator.suspend(), SuspendAction::ReleaseSurface);
    assert_eq!(coordinator.phase(), Phase::Suspended);
    assert_eq!(coordinator.suspend(), SuspendAction::Nothing);
    assert!(coordinator.needs_surface());
    assert_eq!(
        coordinator.activate(PhysicalSize::new(1, 1), scale(1.0), &Vec::new()),
        Err(ActivationError::NoSurfaceFormat)
    );
    assert_eq!(coordinator.phase(), Phase::Suspended);
    let config = coordinator
        .activate(PhysicalSize::new(800, 600), scale(1.0), &vec![TextureFormat::Rgba8Unorm])
        .unwrap()
        .unwrap();
    assert_eq!(config.format, TextureFormat::Rgba8Unorm);
    assert_eq!(
        coordinator.viewport(),
        Some(Viewport::with_physical_size(PhysicalSize::new(800, 600), scale(1.0)))
    );
}
