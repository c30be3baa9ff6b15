//! How the overlay's layer surface is placed on the output.

use vstd::prelude::*;

verus! {

/// The stacking layer of a layer surface.
#[derive(Clone, Copy, Debug, PartialEq, Eq, Structural)]
pub enum Layer {
    Background,
    Bottom,
    Top,
    Overlay,
}

/// Whether a layer surface takes keyboard focus.
#[derive(Clone, Copy, Debug, PartialEq, Eq, Structural)]
pub enum KeyboardInteractivity {
    NoFocus,
    Exclusive,
    OnDemand,
}

/// The placement requested for a layer surface.
#[derive(Clone, Copy, Debug, PartialEq, Eq, Structural)]
pub struct LayerSettings {
    pub layer: Layer,
    pub anchor_top: bool,
    pub anchor_bottom: bool,
    pub anchor_left: bool,
    pub anchor_right: bool,
    /// Requested size; zero leaves it to the compositor.
    pub width: u32,
    pub height: u32,
    pub exclusive_zone: i32,
    pub keyboard_interactivity: KeyboardInteractivity,
}

impl LayerSettings {
    /// The overlay's placement: above every window, anchored to all four
    /// edges with the size left to the compositor so that it fills the output,
    /// reserving no space from panels or docks, and never taking keyboard
    /// focus.
    pub fn overlay() -> (s: LayerSettings)
        ensures
            s.layer == Layer::Overlay,
            s.anchor_top && s.anchor_bottom && s.anchor_left && s.anchor_right,
            s.width == 0 && s.height == 0,
            s.exclusive_zone == 0,
            s.keyboard_interactivity == KeyboardInteractivity::NoFocus,
    {
        LayerSettings {
            layer: Layer::Overlay,
            anchor_top: true,
            anchor_bottom: true,
            anchor_left: true,
            anchor_right: true,
            width: 0,
            height: 0,
            exclusive_zone: 0,
            keyboard_interactivity: KeyboardInteractivity::NoFocus,
        }
    }
}

} // verus!
