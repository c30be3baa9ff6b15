//! Choosing the presentation settings of the overlay's surface from what the
//! surface supports.

use vstd::prelude::*;

verus! {

/// How the compositor blends the surface's alpha channel.
#[derive(Clone, Copy, Debug, PartialEq, Eq, Structural)]
pub enum AlphaMode {
    Auto,
    Opaque,
    PreMultiplied,
    PostMultiplied,
    Inherit,
}

/// How finished frames are queued for display.
#[derive(Clone, Copy, Debug, PartialEq, Eq, Structural)]
pub enum PresentMode {
    AutoVsync,
    AutoNoVsync,
    Fifo,
    FifoRelaxed,
    Immediate,
    Mailbox,
}

/// An alpha mode in which the compositor honours the surface's transparency.
pub open spec fn blends_alpha(mode: AlphaMode) -> bool {
    mode == AlphaMode::PreMultiplied || mode == AlphaMode::PostMultiplied
}

/// The texture format of a surface, as wgpu describes it.
#[verifier::external_type_specification]
#[verifier::external_body]
pub struct ExTextureFormat(wgpu::TextureFormat);

/// Whether wgpu counts `format` as an sRGB format.
pub uninterp spec fn srgb_format(format: wgpu::TextureFormat) -> bool;

/// Calls wgpu's `TextureFormat::is_srgb`, which compares the format with its
/// own variant stripped of the sRGB suffix. Trusted: the answer depends on
/// the format alone and equals `srgb_format` of it; which formats are sRGB
/// is left unstated.
#[verifier::external_body]
fn format_is_srgb(format: &wgpu::TextureFormat) -> (b: bool)
    ensures
        b == srgb_format(*format),
{
    format.is_srgb()
}

/// Some offered format is sRGB.
pub open spec fn offers_srgb(formats: Seq<wgpu::TextureFormat>) -> bool {
    exists|i: int| 0 <= i < formats.len() && srgb_format(formats[i])
}

/// `k` is the first position of `formats` that holds an sRGB format.
pub open spec fn first_srgb(formats: Seq<wgpu::TextureFormat>, k: int) -> bool {
    &&& 0 <= k < formats.len()
    &&& srgb_format(formats[k])
    &&& forall|j: int| 0 <= j < k ==> !srgb_format(formats[j])
}

/// `k` is the first position of `modes` whose mode blends alpha.
pub open spec fn first_blending(modes: Seq<AlphaMode>, k: int) -> bool {
    &&& 0 <= k < modes.len()
    &&& blends_alpha(modes[k])
    &&& forall|j: int| 0 <= j < k ==> !blends_alpha(modes[j])
}

/// The position of the surface format to use among the offered formats (in
/// the surface's order of preference): the first sRGB format, or else the
/// first format.
pub fn choose_format_index(formats: &Vec<wgpu::TextureFormat>) -> (k: usize)
    requires
        formats.len() > 0,
    ensures
        k < formats.len(),
        offers_srgb(formats@) ==> first_srgb(formats@, k as int),
        !offers_srgb(formats@) ==> k == 0,
{
    let mut i: usize = 0;
    while i < formats.len()
        invariant
            i <= formats.len(),
            forall|j: int| 0 <= j < i ==> !srgb_format(formats[j]),
        decreases formats.len() - i,
    {
        if format_is_srgb(&formats[i]) {
            return i;
        }
        i = i + 1;
    }
    0
}

/// The alpha mode to use: the first offered mode that blends alpha, or else
/// the first offered mode.
pub fn choose_alpha_mode(modes: &Vec<AlphaMode>) -> (m: AlphaMode)
    requires
        modes.len() > 0,
    ensures
        (exists|i: int| 0 <= i < modes.len() && blends_alpha(modes[i])) ==> exists|k: int|
            first_blending(modes@, k) && m == modes[k],
        !(exists|i: int| 0 <= i < modes.len() && blends_alpha(modes[i])) ==> m == modes[0],
{
    let mut i: usize = 0;
    while i < modes.len()
        invariant
            i <= modes.len(),
            forall|j: int| 0 <= j < i ==> !blends_alpha(modes[j]),
        decreases modes.len() - i,
    {
        let mode = modes[i];
        match mode {
            AlphaMode::PreMultiplied | AlphaMode::PostMultiplied => {
                assert(first_blending(modes@, i as int));
                return mode;
            },
            _ => {},
        }
        i = i + 1;
    }
    modes[0]
}

/// The present mode to use: `Mailbox` where the surface offers it, and
/// otherwise `Fifo`, which every surface supports.
pub fn choose_present_mode(modes: &Vec<PresentMode>) -> (m: PresentMode)
    ensures
        m == (if modes@.contains(PresentMode::Mailbox) {
            PresentMode::Mailbox
        } else {
            PresentMode::Fifo
        }),
{
    let mut i: usize = 0;
    while i < modes.len()
        invariant
            i <= modes.len(),
            forall|j: int| 0 <= j < i ==> modes[j] != PresentMode::Mailbox,
        decreases modes.len() - i,
    {
        match modes[i] {
            PresentMode::Mailbox => {
                assert(modes@[i as int] == PresentMode::Mailbox);
                return PresentMode::Mailbox;
            },
            _ => {},
        }
        i = i + 1;
    }
    PresentMode::Fifo
}

} // verus!
