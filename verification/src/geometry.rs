//! Integer geometry for the configure handshake.
//!
//! All coordinates are logical pixels.  The compositor suggests content
//! sizes; the toolkit draws its own decoration inset around them, so the two
//! directions of the conversion live here: [`compute_outer_size`] adds the
//! inset back on every untiled edge, and [`inset_window_geometry`] shrinks
//! the bounds inward on every untiled edge to obtain the geometry declared
//! back to the compositor.

use vstd::prelude::*;

verus! {

/// Largest dimension accepted from a compositor suggestion or as a
/// decoration inset.  Keeps every inset computation inside `i32`.
pub const MAX_SUGGESTED_SIZE: i32 = 0x0100_0000;

/// Largest dimension a window's own bounds can reach: a suggested size plus
/// an inset on both edges.
pub const SIZE_LIMIT: i32 = 0x0300_0000;

/// A size in logical pixels.
#[derive(Clone, Copy, Debug, PartialEq, Eq, Structural)]
pub struct Size {
    pub width: i32,
    pub height: i32,
}

/// A position in logical pixels.
#[derive(Clone, Copy, Debug, PartialEq, Eq, Structural)]
pub struct Point {
    pub x: i32,
    pub y: i32,
}

/// A rectangle in logical pixels.
#[derive(Clone, Copy, Debug, PartialEq, Eq, Structural)]
pub struct Bounds {
    pub origin: Point,
    pub size: Size,
}

/// Which screen edges the window is currently snapped against.  A tiled edge
/// carries no client-side decoration, so it takes part in no inset math.
#[derive(Clone, Copy, Debug, PartialEq, Eq, Structural)]
pub struct Tiling {
    pub top: bool,
    pub bottom: bool,
    pub left: bool,
    pub right: bool,
}

impl Tiling {
    /// No edge tiled: the floating-window state.
    pub fn untiled() -> (r: Tiling)
        ensures
            r == (Tiling { top: false, bottom: false, left: false, right: false }),
    {
        Tiling { top: false, bottom: false, left: false, right: false }
    }

    /// Every edge tiled, as forced while fullscreen or maximized.
    pub fn tiled() -> (r: Tiling)
        ensures
            r == (Tiling { top: true, bottom: true, left: true, right: true }),
    {
        Tiling { top: true, bottom: true, left: true, right: true }
    }

    pub open spec fn all_tiled(self) -> bool {
        self.top && self.bottom && self.left && self.right
    }
}

impl Default for Tiling {
    fn default() -> (r: Tiling)
        ensures
            r == (Tiling { top: false, bottom: false, left: false, right: false }),
    {
        Tiling { top: false, bottom: false, left: false, right: false }
    }
}

pub open spec fn valid_dim(v: i32) -> bool {
    0 <= v <= SIZE_LIMIT
}

pub open spec fn valid_size(s: Size) -> bool {
    valid_dim(s.width) && valid_dim(s.height)
}

pub open spec fn valid_origin(p: Point) -> bool {
    -SIZE_LIMIT <= p.x <= SIZE_LIMIT && -SIZE_LIMIT <= p.y <= SIZE_LIMIT
}

pub open spec fn valid_bounds(b: Bounds) -> bool {
    valid_origin(b.origin) && valid_size(b.size)
}

pub open spec fn suggested_dim(v: i32) -> bool {
    0 <= v <= MAX_SUGGESTED_SIZE
}

pub open spec fn suggested_size(s: Size) -> bool {
    suggested_dim(s.width) && suggested_dim(s.height)
}

pub open spec fn valid_inset(i: i32) -> bool {
    0 <= i <= MAX_SUGGESTED_SIZE
}

/// A dimension with the inset added back on each of its two edges that is
/// not tiled.
pub open spec fn outer_dim(v: int, inset: int, tiled_a: bool, tiled_b: bool) -> int {
    v + (if tiled_a { 0 } else { inset }) + (if tiled_b { 0 } else { inset })
}

/// A dimension with the inset removed from each of its two edges that is
/// not tiled.
pub open spec fn inner_dim(v: int, inset: int, tiled_a: bool, tiled_b: bool) -> int {
    v - (if tiled_a { 0 } else { inset }) - (if tiled_b { 0 } else { inset })
}

/// Window geometry must stay strictly positive; anything else is clamped
/// to one logical pixel.
pub open spec fn clamp_dim(v: int) -> int {
    if v <= 0 {
        1
    } else {
        v
    }
}

/// The value [`compute_outer_size`] returns.
pub open spec fn spec_outer_size(inset: Option<i32>, new_size: Option<Size>, tiling: Tiling) -> Option<
    Size,
> {
    match inset {
        Option::None => new_size,
        Option::Some(i) => match new_size {
            Option::None => Option::None,
            Option::Some(s) => Option::Some(
                Size {
                    width: outer_dim(s.width as int, i as int, tiling.left, tiling.right) as i32,
                    height: outer_dim(s.height as int, i as int, tiling.top, tiling.bottom) as i32,
                },
            ),
        },
    }
}

/// The value [`inset_window_geometry`] returns.
pub open spec fn spec_window_geometry(size: Size, inset: Option<i32>, tiling: Tiling) -> Bounds {
    let i = if inset is Some {
        inset.unwrap() as int
    } else {
        0int
    };
    Bounds {
        origin: Point {
            x: (if tiling.left { 0int } else { i }) as i32,
            y: (if tiling.top { 0int } else { i }) as i32,
        },
        size: Size {
            width: clamp_dim(inner_dim(size.width as int, i, tiling.left, tiling.right)) as i32,
            height: clamp_dim(inner_dim(size.height as int, i, tiling.top, tiling.bottom)) as i32,
        },
    }
}

/// The outer (decorated) size the toolkit should adopt for a
/// compositor-suggested content size: the inset is added back on every edge
/// not currently tiled.  Absent an inset the suggestion passes through
/// unchanged; absent a suggestion there is nothing to adjust.
pub fn compute_outer_size(inset: Option<i32>, new_size: Option<Size>, tiling: Tiling) -> (r:
    Option<Size>)
    requires
        inset is Some ==> valid_inset(inset.unwrap()),
        new_size is Some ==> suggested_size(new_size.unwrap()),
    ensures
        inset is None ==> r == new_size,
        r is Some <==> new_size is Some,
        inset is Some && new_size is Some ==> {
            &&& r.unwrap().width == outer_dim(
                new_size.unwrap().width as int,
                inset.unwrap() as int,
                tiling.left,
                tiling.right,
            )
            &&& r.unwrap().height == outer_dim(
                new_size.unwrap().height as int,
                inset.unwrap() as int,
                tiling.top,
                tiling.bottom,
            )
        },
        r is Some ==> valid_size(r.unwrap()),
        r == spec_outer_size(inset, new_size, tiling),
{
    let Some(inset) = inset else { return new_size };

    match new_size {
        Some(size) => {
            let mut new_size = size;
            if !tiling.top {
                new_size.height = new_size.height + inset;
            }
            if !tiling.bottom {
                new_size.height = new_size.height + inset;
            }
            if !tiling.left {
                new_size.width = new_size.width + inset;
            }
            if !tiling.right {
                new_size.width = new_size.width + inset;
            }
            Some(new_size)
        },
        None => None,
    }
}

/// Shrinks the bounds inward by the inset on every edge that is not tiled,
/// moving the origin for the top and left edges.  This is the raw inverse of
/// [`compute_outer_size`]; no clamping happens here.
pub fn inset_by_tiling(bounds: Bounds, inset: i32, tiling: Tiling) -> (r: Bounds)
    requires
        valid_bounds(bounds),
        valid_inset(inset),
    ensures
        r.origin.x == bounds.origin.x + (if tiling.left { 0int } else { inset as int }),
        r.origin.y == bounds.origin.y + (if tiling.top { 0int } else { inset as int }),
        r.size.width == inner_dim(bounds.size.width as int, inset as int, tiling.left, tiling.right),
        r.size.height == inner_dim(
            bounds.size.height as int,
            inset as int,
            tiling.top,
            tiling.bottom,
        ),
{
    let mut bounds = bounds;
    if !tiling.top {
        bounds.origin.y = bounds.origin.y + inset;
        bounds.size.height = bounds.size.height - inset;
    }
    if !tiling.bottom {
        bounds.size.height = bounds.size.height - inset;
    }
    if !tiling.left {
        bounds.origin.x = bounds.origin.x + inset;
        bounds.size.width = bounds.size.width - inset;
    }
    if !tiling.right {
        bounds.size.width = bounds.size.width - inset;
    }
    bounds
}

/// The window geometry to declare back to the compositor for a window of the
/// given outer size: origin at zero, shrunk inward by the inset on every
/// untiled edge, and each dimension clamped to at least one logical pixel
/// (a non-positive declared size would break the protocol).
pub fn inset_window_geometry(bounds: Bounds, inset: Option<i32>, tiling: Tiling) -> (r: Bounds)
    requires
        valid_size(bounds.size),
        inset is Some ==> valid_inset(inset.unwrap()),
    ensures
        ({
            let i = if inset is Some {
                inset.unwrap() as int
            } else {
                0int
            };
            &&& r.origin.x == if tiling.left { 0int } else { i }
            &&& r.origin.y == if tiling.top { 0int } else { i }
            &&& r.size.width == clamp_dim(inner_dim(bounds.size.width as int, i, tiling.left, tiling.right))
            &&& r.size.height == clamp_dim(
                inner_dim(bounds.size.height as int, i, tiling.top, tiling.bottom),
            )
        }),
        r.size.width >= 1,
        r.size.height >= 1,
        valid_bounds(r),
        r == spec_window_geometry(bounds.size, inset, tiling),
{
    let inset = match inset {
        Some(i) => i,
        None => 0,
    };
    let zeroed = Bounds { origin: Point { x: 0, y: 0 }, size: bounds.size };
    let mut r = inset_by_tiling(zeroed, inset, tiling);
    if r.size.width <= 0 {
        r.size.width = 1;
    }
    if r.size.height <= 0 {
        r.size.height = 1;
    }
    r
}

/// The value [`Bounds::inset_all`] returns.
pub open spec fn spec_inset_all(b: Bounds, amount: i32) -> Bounds {
    Bounds {
        origin: Point { x: (b.origin.x + amount) as i32, y: (b.origin.y + amount) as i32 },
        size: Size {
            width: (b.size.width - 2 * amount) as i32,
            height: (b.size.height - 2 * amount) as i32,
        },
    }
}

impl Bounds {
    /// The rectangle shrunk inward by `amount` on all four sides.
    pub fn inset_all(self, amount: i32) -> (r: Bounds)
        requires
            valid_bounds(self),
            valid_inset(amount),
        ensures
            r.origin.x == self.origin.x + amount,
            r.origin.y == self.origin.y + amount,
            r.size.width == self.size.width - 2 * (amount as int),
            r.size.height == self.size.height - 2 * (amount as int),
            r == spec_inset_all(self, amount),
    {
        Bounds {
            origin: Point { x: self.origin.x + amount, y: self.origin.y + amount },
            size: Size {
                width: self.size.width - 2 * amount,
                height: self.size.height - 2 * amount,
            },
        }
    }
}

} // verus!
