//! Choosing how the presentation surface is configured.

use crate::descriptor::TextureUsages;
use vstd::prelude::*;

verus! {

/// `wgpu::TextureFormat`, the pixel formats of the graphics library. Nothing
/// is known here of what a value of it holds; values are only carried.
#[verifier::external_type_specification]
#[verifier::external_body]
pub struct ExTextureFormat(wgpu::TextureFormat);

/// What `wgpu::TextureFormat::is_srgb` answers for a format: whether the
/// format stores gamma-encoded (sRGB) colour. Which formats these are is the
/// graphics library's knowledge and is not stated here.
pub uninterp spec fn is_srgb_format(format: wgpu::TextureFormat) -> bool;

/// Calls `wgpu::TextureFormat::is_srgb`. Trusted, not proved: the answer
/// depends on the format alone, so it is the same whenever the same format
/// is asked about. The method compares the format with itself stripped of
/// its sRGB suffix; it takes no other input and does not fail.
#[verifier::external_body]
fn format_is_srgb(format: &wgpu::TextureFormat) -> (srgb: bool)
    ensures
        srgb == is_srgb_format(*format),
{
    format.is_srgb()
}

/// The configuration of the presentation surface. Format, presentation mode
/// and alpha mode are positions in the lists that the surface offers.
#[derive(Clone, Copy, Debug, PartialEq, Eq, Structural)]
pub struct SurfaceConfig {
    pub usage: TextureUsages,
    pub format: usize,
    pub width: u32,
    pub height: u32,
    pub present_mode: usize,
    pub alpha_mode: usize,
    pub desired_maximum_frame_latency: u32,
}

/// `index` is the format to take among those offered, `flags` telling of each
/// whether it is gamma-encoded: the first gamma-encoded one, or the first of
/// all where none is.
pub open spec fn is_preferred(flags: Seq<bool>, index: int) -> bool {
    &&& 0 <= index < flags.len()
    &&& forall|j: int| 0 <= j < index ==> !#[trigger] flags[j]
    &&& flags[index] || (index == 0 && forall|j: int| 0 <= j < flags.len() ==> !#[trigger] flags[j])
}

/// Of each format, whether it is gamma-encoded.
pub open spec fn srgb_flags(formats: Seq<wgpu::TextureFormat>) -> Seq<bool> {
    Seq::new(formats.len(), |i: int| is_srgb_format(formats[i]))
}

/// What a surface is used for: it is rendered to, and nothing else.
pub open spec fn surface_usage() -> TextureUsages {
    TextureUsages {
        copy_src: false,
        copy_dst: false,
        texture_binding: false,
        storage_binding: false,
        render_attachment: true,
    }
}

/// No two formats are preferred.
pub proof fn lemma_preferred_unique(flags: Seq<bool>, first: int, second: int)
    requires
        is_preferred(flags, first),
        is_preferred(flags, second),
    ensures
        first == second,
{
}

/// Picks a format among those offered, given of each whether it is
/// gamma-encoded: the first gamma-encoded one, or the first of all where none
/// is. Nothing is picked where nothing is offered.
pub fn preferred_format(srgb: &[bool]) -> (index: Option<usize>)
    ensures
        index is None <==> srgb@.len() == 0,
        index matches Some(i) ==> is_preferred(srgb@, i as int),
{
    if srgb.len() == 0 {
        return None;
    }
    let mut i: usize = 0;
    while i < srgb.len()
        invariant
            i <= srgb.len(),
            forall|j: int| 0 <= j < i ==> !#[trigger] srgb@[j],
        decreases srgb.len() - i,
    {
        if srgb[i] {
            return Some(i);
        }
        i += 1;
    }
    Some(0)
}

/// Picks the pixel format of the surface among those that it offers: the
/// first gamma-encoded one, or the first of all where none is. Nothing is
/// picked where nothing is offered.
pub fn select_surface_format(formats: &[wgpu::TextureFormat]) -> (index: Option<usize>)
    ensures
        index is None <==> formats@.len() == 0,
        index matches Some(i) ==> is_preferred(srgb_flags(formats@), i as int),
{
    let mut flags: Vec<bool> = Vec::new();
    let mut i: usize = 0;
    while i < formats.len()
        invariant
            i <= formats.len(),
            flags@ == srgb_flags(formats@).take(i as int),
        decreases formats.len() - i,
    {
        flags.push(format_is_srgb(&formats[i]));
        assert(srgb_flags(formats@).take(i + 1) =~= srgb_flags(formats@).take(i as int).push(
            is_srgb_format(formats@[i as int]),
        ));
        i += 1;
    }
    assert(srgb_flags(formats@).take(formats@.len() as int) =~= srgb_flags(formats@));
    preferred_format(flags.as_slice())
}

/// The configuration with which the surface starts: rendered to and nothing
/// else, in the preferred format of those offered, of the size of the window,
/// with the first presentation mode and the first alpha mode offered, and at
/// most one frame queued ahead. There is none where the surface offers no
/// format, no presentation mode or no alpha mode.
pub fn initial_surface_config(
    formats: &[wgpu::TextureFormat],
    present_modes: usize,
    alpha_modes: usize,
    width: u32,
    height: u32,
) -> (config: Option<SurfaceConfig>)
    ensures
        config is None <==> formats@.len() == 0 || present_modes == 0 || alpha_modes == 0,
        config matches Some(c) ==> {
            &&& is_preferred(srgb_flags(formats@), c.format as int)
            &&& c == (SurfaceConfig {
                usage: surface_usage(),
                format: c.format,
                width,
                height,
                present_mode: 0,
                alpha_mode: 0,
                desired_maximum_frame_latency: 1,
            })
        },
{
    if present_modes == 0 || alpha_modes == 0 {
        return None;
    }
    match select_surface_format(formats) {
        Some(format) => Some(
            SurfaceConfig {
                usage: TextureUsages {
                    copy_src: false,
                    copy_dst: false,
                    texture_binding: false,
                    storage_binding: false,
                    render_attachment: true,
                },
                format,
                width,
                height,
                present_mode: 0,
                alpha_mode: 0,
                desired_maximum_frame_latency: 1,
            },
        ),
        None => None,
    }
}

} // verus!
