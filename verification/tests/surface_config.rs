use wgpu_init::error::InitError;
use wgpu_init::surface::CompositeAlphaMode;
use wgpu_init::surface::PresentMode;
use wgpu_init::surface::RENDER_ATTACHMENT;
use wgpu_init::surface::build_surface_configuration;
use wgpu_init::surface::plan_surface_config;
use wgpu_init::texture::TextureFormat;

#[test]
fn requested_dimensions_are_kept() {
    let formats = vec![TextureFormat::Bgra8Unorm];
    let config = plan_surface_config(&formats, 800, 600).unwrap();
    assert_eq!(config.width, 800);
    assert_eq!(config.height, 600);
}

#[test]
fn fixed_presentation_parameters() {
    let formats = vec![TextureFormat::Rgba8Unorm, TextureFormat::Bgra8Unorm];
    let config = plan_surface_config(&formats, 320, 240).unwrap();
    assert_eq!(config.usage, RENDER_ATTACHMENT);
    assert_eq!(config.format, TextureFormat::Rgba8Unorm);
    assert_eq!(config.present_mode, PresentMode::Fifo);
    assert_eq!(config.alpha_mode, CompositeAlphaMode::Opaque);
}

#[test]
fn view_formats_toggle_srgb_of_chosen_format() {
    let formats = vec![TextureFormat::Bgra8UnormSrgb];
    let config = plan_surface_config(&formats, 64, 64).unwrap();
    assert_eq!(config.format, TextureFormat::Bgra8UnormSrgb);
    assert_eq!(
        config.view_formats,
        vec![TextureFormat::Bgra8UnormSrgb, TextureFormat::Bgra8Unorm]
    );
}

#[test]
fn view_formats_for_canonical_choice() {
    let config = build_surface_configuration(TextureFormat::Rgba8Unorm, 16, 16);
    assert_eq!(
        config.view_formats,
        vec![TextureFormat::Rgba8UnormSrgb, TextureFormat::Rgba8Unorm]
    );
}

#[test]
fn planning_twice_replaces_dimensions() {
    let formats = vec![TextureFormat::Bgra8Unorm];
    let first = plan_surface_config(&formats, 800, 600).unwrap();
    let second = plan_surface_config(&formats, 1024, 768).unwrap();
    assert_eq!(first.width, 800);
    assert_eq!(first.height, 600);
    assert_eq!(second.width, 1024);
    assert_eq!(second.height, 768);
    assert_eq!(first.format, second.format);
}

#[test]
fn empty_report_yields_no_supported_formats() {
    let formats: Vec<TextureFormat> = Vec::new();
    let err = plan_surface_config(&formats, 800, 600).unwrap_err();
    assert_eq!(err, InitError::NoSupportedFormats);
    assert_eq!(err.message(), "no supported formats");
}
