//! The configuration of the overlay's GPU surface, held as plain values.

use vstd::prelude::*;

use crate::capabilities::{
    AlphaMode, PresentMode, blends_alpha, choose_alpha_mode, choose_format_index,
    choose_present_mode, first_blending, first_srgb, offers_srgb,
};

verus! {

/// How many frames may be queued ahead of the compositor.
pub const FRAME_LATENCY: u32 = 2;

/// A surface extent is never zero: a requested zero stands for one pixel.
pub open spec fn clamp_extent(n: u32) -> u32 {
    if n == 0 {
        1
    } else {
        n
    }
}

/// The settings with which the surface is configured.
#[derive(Clone, Copy, Debug, PartialEq, Eq, Structural)]
pub struct SurfaceSettings {
    /// Position of the texture format among those the surface offers.
    pub format_index: usize,
    pub width: u32,
    pub height: u32,
    pub present_mode: PresentMode,
    pub alpha_mode: AlphaMode,
    pub desired_maximum_frame_latency: u32,
}

impl SurfaceSettings {
    /// Both extents are at least one pixel.
    pub open spec fn wf(self) -> bool {
        self.width >= 1 && self.height >= 1
    }

    /// These settings resized to `width` x `height`, each clamped to one pixel.
    pub open spec fn resized(self, width: u32, height: u32) -> SurfaceSettings {
        SurfaceSettings { width: clamp_extent(width), height: clamp_extent(height), ..self }
    }

    /// The settings the surface starts with, chosen from what it offers:
    /// the offered texture formats, the offered alpha modes and
    /// the offered present modes. The surface starts at one by one pixel.
    pub fn from_capabilities(
        formats: &Vec<wgpu::TextureFormat>,
        alpha_modes: &Vec<AlphaMode>,
        present_modes: &Vec<PresentMode>,
    ) -> (s: SurfaceSettings)
        requires
            formats.len() > 0,
            alpha_modes.len() > 0,
        ensures
            s.width == 1,
            s.height == 1,
            s.desired_maximum_frame_latency == FRAME_LATENCY,
            s.format_index < formats.len(),
            offers_srgb(formats@) ==> first_srgb(formats@, s.format_index as int),
            !offers_srgb(formats@) ==> s.format_index == 0,
            (exists|i: int| 0 <= i < alpha_modes.len() && blends_alpha(alpha_modes[i]))
                ==> exists|k: int| first_blending(alpha_modes@, k) && s.alpha_mode == alpha_modes[k],
            !(exists|i: int| 0 <= i < alpha_modes.len() && blends_alpha(alpha_modes[i]))
                ==> s.alpha_mode == alpha_modes[0],
            s.present_mode == (if present_modes@.contains(PresentMode::Mailbox) {
                PresentMode::Mailbox
            } else {
                PresentMode::Fifo
            }),
            s.wf(),
    {
        SurfaceSettings {
            format_index: choose_format_index(formats),
            width: 1,
            height: 1,
            present_mode: choose_present_mode(present_modes),
            alpha_mode: choose_alpha_mode(alpha_modes),
            desired_maximum_frame_latency: FRAME_LATENCY,
        }
    }

    /// Sets the extent to `width` x `height`, each clamped to one pixel.
    pub fn resize(&mut self, width: u32, height: u32)
        ensures
            *final(self) == old(self).resized(width, height),
            final(self).wf(),
            final(self).width == (if width == 0 {
                1
            } else {
                width
            }),
            final(self).height == (if height == 0 {
                1
            } else {
                height
            }),
    {
        self.width = if width == 0 { 1 } else { width };
        self.height = if height == 0 { 1 } else { height };
    }

    /// Whether the shader must premultiply its colours by alpha: exactly when
    /// the compositor expects premultiplied alpha.
    pub fn premultiply_alpha(&self) -> (b: bool)
        ensures
            b == (self.alpha_mode == AlphaMode::PreMultiplied),
    {
        match self.alpha_mode {
            AlphaMode::PreMultiplied => true,
            _ => false,
        }
    }
}

} // verus!
