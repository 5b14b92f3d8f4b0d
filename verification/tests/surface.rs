use wgpu::TextureFormat;
use window_host::geometry::PhysicalSize;
use window_host::surface::{
    preferred_format, select_preferred, AlphaMode, FrameError, PresentMode, SurfaceConfig,
    SurfaceUsage,
};

#[test]
fn select_preferred_takes_first_flagged_entry() {
    assert_eq!(select_preferred(&vec![false, false, true, true]), Some(2));
    assert_eq!(select_preferred(&vec![true, false, true]), Some(0));
    assert_eq!(select_preferred(&vec![false, true]), Some(1));
}

#[test]
fn select_preferred_falls_back_to_first_entry() {
    assert_eq!(select_preferred(&vec![false]), Some(0));
    assert_eq!(select_preferred(&vec![false, false, false]), Some(0));
}

#[test]
fn select_preferred_of_nothing_is_none() {
    assert_eq!(select_preferred(&Vec::new()), None);
}

#[test]
fn preferred_format_prefers_srgb_wherever_it_stands() {
    let formats = vec![
        TextureFormat::Rgba8Unorm,
        TextureFormat::Bgra8Unorm,
        TextureFormat::Bgra8UnormSrgb,
        TextureFormat::Rgba8UnormSrgb,
    ];
    assert_eq!(preferred_format(&formats), Some(TextureFormat::Bgra8UnormSrgb));
}

#[test]
fn preferred_format_takes_first_srgb_of_several() {
    let formats = vec![
        TextureFormat::Rgba8UnormSrgb,
        TextureFormat::Bgra8UnormSrgb,
        TextureFormat::Rgba8Unorm,
    ];
    assert_eq!(preferred_format(&formats), Some(TextureFormat::Rgba8UnormSrgb));
}

#[test]
fn preferred_format_without_srgb_is_the_first() {
    let formats = vec![
        TextureFormat::Rgba16Float,
        TextureFormat::Rgba8Unorm,
        TextureFormat::Rgb10a2Unorm,
    ];
    assert_eq!(preferred_format(&formats), Some(TextureFormat::Rgba16Float));
}

#[test]
fn preferred_format_of_no_formats_is_none() {
    assert_eq!(preferred_format(&Vec::new()), None);
}

#[test]
fn preferred_format_agrees_with_the_flags_of_the_formats() {
    let formats = vec![
        TextureFormat::R8Unorm,
        TextureFormat::Bc1RgbaUnorm,
        TextureFormat::Bc1RgbaUnormSrgb,
        TextureFormat::Etc2Rgb8UnormSrgb,
    ];
    let flags: Vec<bool> = formats.iter().map(|format| format.is_srgb()).collect();
    assert_eq!(flags, vec![false, false, true, true]);
    let index = select_preferred(&flags).unwrap();
    assert_eq!(preferred_format(&formats), Some(formats[index]));
}

#[test]
fn surface_config_has_the_fixed_presentation_settings() {
    let config = SurfaceConfig::for_size(TextureFormat::Rgba8UnormSrgb, PhysicalSize::new(640, 480));
    assert_eq!(
        config,
        SurfaceConfig {
            usage: SurfaceUsage::RenderAttachment,
            format: TextureFormat::Rgba8UnormSrgb,
            width: 640,
            height: 480,
            present_mode: PresentMode::AutoVsync,
            alpha_mode: AlphaMode::Auto,
            view_formats: Vec::new(),
            desired_maximum_frame_latency: 2,
        }
    );
}

#[test]
fn only_out_of_memory_is_fatal() {
    assert!(FrameError::OutOfMemory.fatal());
    assert!(!FrameError::Timeout.fatal());
    assert!(!FrameError::Outdated.fatal());
    assert!(!FrameError::Lost.fatal());
}

#[test]
fn physical_size_is_drawable_only_with_both_sides() {
    assert!(PhysicalSize::new(1, 1).drawable());
    assert!(!PhysicalSize::new(0, 10).drawable());
    assert!(!PhysicalSize::new(10, 0).drawable());
    assert!(!PhysicalSize::new(0, 0).drawable());
    assert!(PhysicalSize::new(u32::MAX, u32::MAX).drawable());
}
