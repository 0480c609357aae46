use vstd::prelude::*;

verus! {

/// The choices made when the surface is first configured.  Indices select
/// from the lists of formats, present modes and alpha modes the adapter
/// supports, in the order it reports them.
#[derive(Clone, Copy, Debug)]
pub struct SurfacePlan {
    /// Width the surface is configured with, in pixels.
    pub width: u32,
    /// Height the surface is configured with, in pixels.
    pub height: u32,
    /// Index of the chosen texture format among the supported ones.
    pub format_index: usize,
    /// Index of the chosen present mode among the supported ones.
    pub present_mode_index: usize,
    /// Index of the chosen alpha mode among the supported ones.
    pub alpha_mode_index: usize,
    /// How many frames may be queued ahead of presentation.
    pub desired_maximum_frame_latency: u32,
}

/// Pick a texture format from the supported list, given for each entry
/// whether it is an sRGB format: the first sRGB format wins, and when there
/// is none, the first format of the list.
pub fn choose_format_index(format_is_srgb: &Vec<bool>) -> (i: usize)
    requires
        format_is_srgb@.len() > 0,
    ensures
        i < format_is_srgb@.len(),
        (exists|j: int| 0 <= j < format_is_srgb@.len() && format_is_srgb@[j]) ==> (
            format_is_srgb@[i as int] && forall|j: int| 0 <= j < i ==> !format_is_srgb@[j]
        ),
        (forall|j: int| 0 <= j < format_is_srgb@.len() ==> !format_is_srgb@[j]) ==> i == 0,
{
    let mut k: usize = 0;
    while k < format_is_srgb.len()
        invariant
            k <= format_is_srgb@.len(),
            forall|j: int| 0 <= j < k ==> !format_is_srgb@[j],
        decreases format_is_srgb@.len() - k,
    {
        if format_is_srgb[k] {
            return k;
        }
        k = k + 1;
    }
    0
}

/// Lay out the initial surface configuration from the window's framebuffer
/// size and the supported formats: the framebuffer extent, the first sRGB
/// format (or the first format), the first present and alpha modes, and a
/// frame latency of two.
pub fn plan_surface(framebuffer_size: (i32, i32), format_is_srgb: &Vec<bool>) -> (p: SurfacePlan)
    requires
        0 <= framebuffer_size.0,
        0 <= framebuffer_size.1,
        format_is_srgb@.len() > 0,
    ensures
        p.width == framebuffer_size.0 as u32,
        p.height == framebuffer_size.1 as u32,
        p.format_index < format_is_srgb@.len(),
        (exists|j: int| 0 <= j < format_is_srgb@.len() && format_is_srgb@[j]) ==> (
            format_is_srgb@[p.format_index as int]
                && forall|j: int| 0 <= j < p.format_index ==> !format_is_srgb@[j]
        ),
        (forall|j: int| 0 <= j < format_is_srgb@.len() ==> !format_is_srgb@[j]) ==> p.format_index == 0,
        p.present_mode_index == 0,
        p.alpha_mode_index == 0,
        p.desired_maximum_frame_latency == 2,
{
    let format_index = choose_format_index(format_is_srgb);
    SurfacePlan {
        width: framebuffer_size.0 as u32,
        height: framebuffer_size.1 as u32,
        format_index,
        present_mode_index: 0,
        alpha_mode_index: 0,
        desired_maximum_frame_latency: 2,
    }
}

} // verus!
