//! Settings for a layer-shell surface: a panel or bar anchored to screen
//! edges, with an optional exclusive zone reserving space from other
//! surfaces.

use vstd::prelude::*;

verus! {

/// The z-depth a layer surface is rendered at.
#[derive(Clone, Copy, Debug, PartialEq, Eq, Structural)]
pub enum Layer {
    /// The background layer
    Background,
    /// The bottom layer
    Bottom,
    /// The top layer
    Top,
    /// The overlay layer
    Overlay,
}

/// The screen edges a layer surface is anchored to.
#[derive(Clone, Copy, Debug, PartialEq, Eq, Structural)]
pub struct Anchor {
    pub top: bool,
    pub bottom: bool,
    pub left: bool,
    pub right: bool,
}

/// Wire bit of the top anchor.
pub const ANCHOR_TOP: u32 = 1;

/// Wire bit of the bottom anchor.
pub const ANCHOR_BOTTOM: u32 = 2;

/// Wire bit of the left anchor.
pub const ANCHOR_LEFT: u32 = 4;

/// Wire bit of the right anchor.
pub const ANCHOR_RIGHT: u32 = 8;

/// The value [`Anchor::bits`] returns.
pub open spec fn spec_anchor_bits(a: Anchor) -> u32 {
    ((if a.top {
        ANCHOR_TOP as int
    } else {
        0int
    }) + (if a.bottom {
        ANCHOR_BOTTOM as int
    } else {
        0int
    }) + (if a.left {
        ANCHOR_LEFT as int
    } else {
        0int
    }) + (if a.right {
        ANCHOR_RIGHT as int
    } else {
        0int
    })) as u32
}

impl Anchor {
    /// The anchor's wire representation: one bit per anchored edge.
    pub fn bits(&self) -> (r: u32)
        ensures
            r == spec_anchor_bits(*self),
    {
        let mut r: u32 = 0;
        if self.top {
            r = r + ANCHOR_TOP;
        }
        if self.bottom {
            r = r + ANCHOR_BOTTOM;
        }
        if self.left {
            r = r + ANCHOR_LEFT;
        }
        if self.right {
            r = r + ANCHOR_RIGHT;
        }
        r
    }
}

impl Layer {
    /// The layer's wire value.
    pub fn wire_value(&self) -> (r: u32)
        ensures
            r == (match *self {
                Layer::Background => 0u32,
                Layer::Bottom => 1u32,
                Layer::Top => 2u32,
                Layer::Overlay => 3u32,
            }),
    {
        match self {
            Layer::Background => 0,
            Layer::Bottom => 1,
            Layer::Top => 2,
            Layer::Overlay => 3,
        }
    }
}

/// Types of keyboard interaction possible for a layer shell surface
#[derive(Clone, Copy, Debug, PartialEq, Eq, Structural)]
pub enum KeyboardInteractivity {
    /// No keyboard focus is possible
    NoFocus,
    /// Request exclusive keyboard focus
    Exclusive,
    /// Request regular keyboard focus semantics
    OnDemand,
}

impl KeyboardInteractivity {
    /// The interactivity mode's wire value.
    pub fn wire_value(&self) -> (r: u32)
        ensures
            r == (match *self {
                KeyboardInteractivity::NoFocus => 0u32,
                KeyboardInteractivity::Exclusive => 1u32,
                KeyboardInteractivity::OnDemand => 2u32,
            }),
    {
        match self {
            KeyboardInteractivity::NoFocus => 0,
            KeyboardInteractivity::Exclusive => 1,
            KeyboardInteractivity::OnDemand => 2,
        }
    }
}

/// Settings for a layer shell surface
#[derive(Clone, Debug, PartialEq, Eq)]
pub struct LayerShellSettings {
    /// Layer of the surface
    pub layer: Layer,
    /// Anchor point of the surface
    pub anchor: Anchor,
    /// The exclusive edge will prevent other surfaces from being placed in the same area
    pub exclusive_zone: Option<i32>,
    /// The distance away from the anchor point, as top/right/bottom/left margins
    pub margin: Option<(i32, i32, i32, i32)>,
    /// Types of keyboard interaction possible for layer shell surfaces
    pub keyboard_interactivity: KeyboardInteractivity,
    /// Whether the surface should receive pointer events
    pub pointer_interactivity: bool,
    /// Namespace for the layer shell surface
    pub namespace: String,
}

impl Default for LayerShellSettings {
    fn default() -> (r: LayerShellSettings)
        ensures
            r.layer == Layer::Top,
            r.anchor == (Anchor { top: false, bottom: false, left: true, right: true }),
            r.exclusive_zone is None,
            r.margin is None,
            r.keyboard_interactivity == KeyboardInteractivity::Exclusive,
            r.pointer_interactivity,
            r.namespace@ == Seq::<char>::empty(),
    {
        LayerShellSettings {
            layer: Layer::Top,
            anchor: Anchor { top: false, bottom: false, left: true, right: true },
            exclusive_zone: None,
            margin: None,
            keyboard_interactivity: KeyboardInteractivity::Exclusive,
            pointer_interactivity: true,
            namespace: String::new(),
        }
    }
}

} // verus!
