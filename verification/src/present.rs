//! The presentation pass: which fragment variant draws the output image
//! into the surface.

use vstd::prelude::*;
use crate::error::SetupError;

verus! {

/// Number of vertices of the full-screen triangle.
pub const FULLSCREEN_VERTICES: u32 = 3;

/// The pixel format that the surface negotiated, as far as the colour path
/// depends on it.
#[derive(Clone, Copy, Debug, PartialEq, Eq, Structural)]
pub enum SurfaceFormat {
    /// 8-bit BGRA, stored linearly: the shader has to encode colours itself.
    Bgra8Unorm,
    /// 8-bit BGRA with sRGB encoding done by the surface on write.
    Bgra8UnormSrgb,
    /// Any other format.
    Other,
}

/// The two fragment programs of the blit shader.
#[derive(Clone, Copy, Debug, PartialEq, Eq, Structural)]
pub enum FragmentVariant {
    /// Copies the sampled colour as it is.
    DirectCopy,
    /// Applies the sRGB transfer curve before writing.
    GammaCorrecting,
}

/// The variant that draws correctly into a surface of the given format, if
/// the format is one of the two recognised ones.
pub open spec fn variant_for(format: SurfaceFormat) -> Option<FragmentVariant> {
    match format {
        SurfaceFormat::Bgra8UnormSrgb => Some(FragmentVariant::DirectCopy),
        SurfaceFormat::Bgra8Unorm => Some(FragmentVariant::GammaCorrecting),
        SurfaceFormat::Other => None,
    }
}

/// Selects the fragment variant for a surface format. Fails on every format
/// but the two recognised ones.
pub fn select_fragment_variant(format: SurfaceFormat) -> (selected: Result<
    FragmentVariant,
    SetupError,
>)
    ensures
        match selected {
            Ok(variant) => variant_for(format) == Some(variant),
            Err(e) => variant_for(format).is_none() && e == SetupError::UnsupportedSurfaceFormat,
        },
{
    match format {
        SurfaceFormat::Bgra8UnormSrgb => Ok(FragmentVariant::DirectCopy),
        SurfaceFormat::Bgra8Unorm => Ok(FragmentVariant::GammaCorrecting),
        SurfaceFormat::Other => Err(SetupError::UnsupportedSurfaceFormat),
    }
}

/// Name of the vertex entry point of the blit shader.
pub fn vertex_entry_point() -> (name: &'static str)
    ensures
        name@ == "vs_main"@,
{
    "vs_main"
}

impl FragmentVariant {
    /// Name of the fragment entry point of the blit shader for this variant.
    pub fn entry_point(&self) -> (name: &'static str)
        ensures
            name@ == (match *self {
                FragmentVariant::DirectCopy => "fs_main"@,
                FragmentVariant::GammaCorrecting => "fs_main_srgb"@,
            }),
    {
        match self {
            FragmentVariant::DirectCopy => "fs_main",
            FragmentVariant::GammaCorrecting => "fs_main_srgb",
        }
    }
}

} // verus!
