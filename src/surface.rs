//! The surface side of a session: its extent, its configuration, and the
//! choice of a pixel format among those the adapter offers.

use vstd::prelude::*;

verus! {

#[verifier::external_type_specification]
#[verifier::external_body]
pub struct ExTextureFormat(wgpu::TextureFormat);

#[verifier::external_type_specification]
#[verifier::external_body]
pub struct ExPresentMode(wgpu::PresentMode);

#[verifier::external_type_specification]
#[verifier::external_body]
pub struct ExCompositeAlphaMode(wgpu::CompositeAlphaMode);

/// Whether a texture format stores gamma-corrected (sRGB) colour.
pub uninterp spec fn srgb_of(f: wgpu::TextureFormat) -> bool;

/// Relies on `wgpu::TextureFormat::describe`: its `srgb` flag depends on the
/// format alone.
#[verifier::external_body]
fn is_srgb(f: &wgpu::TextureFormat) -> (r: bool)
    ensures
        r == srgb_of(*f),
{
    f.describe().srgb
}

/// A window's extent in physical pixels.
#[derive(Clone, Copy, Debug, PartialEq, Eq, Structural)]
pub struct PhysicalSize {
    pub width: u32,
    pub height: u32,
}

impl PhysicalSize {
    pub fn new(width: u32, height: u32) -> (r: PhysicalSize)
        ensures
            r.width == width,
            r.height == height,
    {
        PhysicalSize { width, height }
    }

    /// Neither side is zero.
    pub open spec fn spec_is_drawable(self) -> bool {
        self.width > 0 && self.height > 0
    }

    pub fn is_drawable(&self) -> (r: bool)
        ensures
            r == self.spec_is_drawable(),
    {
        self.width > 0 && self.height > 0
    }
}

/// What the surface is configured with: pixel format, presentation and
/// alpha modes, and extent.
#[derive(Clone, Copy)]
pub struct SurfaceConfig {
    pub format: wgpu::TextureFormat,
    pub present_mode: wgpu::PresentMode,
    pub alpha_mode: wgpu::CompositeAlphaMode,
    pub width: u32,
    pub height: u32,
}

/// No format before index `i` is sRGB.
pub open spec fn no_srgb_before(formats: Seq<wgpu::TextureFormat>, i: int) -> bool {
    forall|j: int| 0 <= j < i ==> !srgb_of(#[trigger] formats[j])
}

/// The format a surface is configured with: the first sRGB one of `formats`,
/// or the first of all when none is sRGB.
pub open spec fn preferred_format(formats: Seq<wgpu::TextureFormat>, f: wgpu::TextureFormat) -> bool {
    if exists|i: int| 0 <= i < formats.len() && srgb_of(#[trigger] formats[i]) {
        exists|i: int|
            0 <= i < formats.len() && srgb_of(#[trigger] formats[i]) && no_srgb_before(formats, i)
                && f == formats[i]
    } else {
        f == formats[0]
    }
}

/// Picks the surface format among those offered: the first sRGB one, else the
/// first one.
pub fn select_format(formats: &Vec<wgpu::TextureFormat>) -> (r: wgpu::TextureFormat)
    requires
        formats@.len() > 0,
    ensures
        preferred_format(formats@, r),
{
    let mut i: usize = 0;
    while i < formats.len()
        invariant
            i <= formats@.len(),
            no_srgb_before(formats@, i as int),
        decreases formats@.len() - i,
    {
        if is_srgb(&formats[i]) {
            return formats[i];
        }
        i = i + 1;
    }
    assert(!exists|k: int| 0 <= k < formats@.len() && srgb_of(#[trigger] formats@[k]));
    formats[0]
}

/// Builds the configuration of a surface of extent `size` from what the
/// adapter offers: the preferred format and the first presentation and alpha
/// modes.
pub fn configure_for(
    size: PhysicalSize,
    formats: &Vec<wgpu::TextureFormat>,
    present_modes: &Vec<wgpu::PresentMode>,
    alpha_modes: &Vec<wgpu::CompositeAlphaMode>,
) -> (r: SurfaceConfig)
    requires
        formats@.len() > 0,
        present_modes@.len() > 0,
        alpha_modes@.len() > 0,
    ensures
        preferred_format(formats@, r.format),
        r.present_mode == present_modes@[0],
        r.alpha_mode == alpha_modes@[0],
        r.width == size.width,
        r.height == size.height,
{
    SurfaceConfig {
        format: select_format(formats),
        present_mode: present_modes[0],
        alpha_mode: alpha_modes[0],
        width: size.width,
        height: size.height,
    }
}

} // verus!
