//! Surface-configuration policy: the fixed presentation parameters and
//! the plan built from a surface's reported formats.

use vstd::prelude::*;
use crate::error::InitError;
use crate::texture::TextureFormat;
use crate::texture::add_srgb_spec;
use crate::texture::add_srgb_suffix;
use crate::texture::preferred_format_spec;
use crate::texture::preferred_framebuffer_format;
use crate::texture::remove_srgb_spec;
use crate::texture::remove_srgb_suffix;

verus! {

/// The render-attachment usage bit of the underlying API's usage flags.
pub const RENDER_ATTACHMENT: u32 = 16;

/// How rendered frames are handed to the display.
#[derive(Clone, Copy, Debug, PartialEq, Eq, Structural)]
pub enum PresentMode {
    Fifo,
    FifoRelaxed,
    Immediate,
    Mailbox,
}

/// How the alpha channel is treated during compositing.
#[derive(Clone, Copy, Debug, PartialEq, Eq, Structural)]
pub enum CompositeAlphaMode {
    Auto,
    Opaque,
    PreMultiplied,
    PostMultiplied,
    Inherit,
}

/// The parameters applied to a surface to make it presentable.
#[derive(Clone, Debug)]
pub struct SurfaceConfiguration {
    pub usage: u32,
    pub format: TextureFormat,
    pub width: u32,
    pub height: u32,
    pub present_mode: PresentMode,
    pub alpha_mode: CompositeAlphaMode,
    pub view_formats: Vec<TextureFormat>,
}

/// What this bootstrap always configures: render-attachment usage, the
/// given format and dimensions, vsync-locked FIFO presentation, opaque
/// compositing, and view formats allowing the sRGB-ness of the chosen
/// format to be toggled.
pub open spec fn planned_config(
    c: SurfaceConfiguration,
    f: TextureFormat,
    width: u32,
    height: u32,
) -> bool {
    &&& c.usage == RENDER_ATTACHMENT
    &&& c.format == f
    &&& c.width == width
    &&& c.height == height
    &&& c.present_mode == PresentMode::Fifo
    &&& c.alpha_mode == CompositeAlphaMode::Opaque
    &&& c.view_formats@ == seq![add_srgb_spec(f), remove_srgb_spec(f)]
}

/// Builds the configuration this bootstrap applies for a chosen format
/// and the caller-requested dimensions.
pub fn build_surface_configuration(f: TextureFormat, width: u32, height: u32) -> (c:
    SurfaceConfiguration)
    ensures
        planned_config(c, f, width, height),
{
    let mut view_formats: Vec<TextureFormat> = Vec::new();
    view_formats.push(add_srgb_suffix(f));
    view_formats.push(remove_srgb_suffix(f));
    proof {
        assert(view_formats@ =~= seq![add_srgb_spec(f), remove_srgb_spec(f)]);
    }
    SurfaceConfiguration {
        usage: RENDER_ATTACHMENT,
        format: f,
        width,
        height,
        present_mode: PresentMode::Fifo,
        alpha_mode: CompositeAlphaMode::Opaque,
        view_formats,
    }
}

/// Applies the format preference to the reported formats and builds the
/// configuration for the requested dimensions; an empty report yields
/// the explicit no-supported-formats error.
pub fn plan_surface_config(formats: &Vec<TextureFormat>, width: u32, height: u32) -> (r: Result<
    SurfaceConfiguration,
    InitError,
>)
    ensures
        formats@.len() == 0 ==> r == Err::<SurfaceConfiguration, InitError>(
            InitError::NoSupportedFormats,
        ),
        formats@.len() > 0 ==> (r matches Ok(c) && planned_config(
            c,
            preferred_format_spec(formats@),
            width,
            height,
        )),
{
    match preferred_framebuffer_format(formats) {
        Ok(f) => Ok(build_surface_configuration(f, width, height)),
        Err(e) => Err(e),
    }
}

} // verus!
