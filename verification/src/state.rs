//! The authoritative record of one window, and the small enumerations its
//! fields range over.
//!
//! The state is a single-writer record: only the event handlers and facade
//! operations of [`crate::controller::Window`] mutate it.  Geometry is
//! provisional until a configure is acknowledged; `window_bounds` remembers
//! the bounds to restore when leaving fullscreen or maximized.

use vstd::prelude::*;

use crate::configure::{InProgressConfigure, WindowControls};
use crate::geometry::{
    suggested_size, valid_bounds, valid_inset, Bounds, Size, Tiling,
};
use crate::layer_shell::LayerShellSettings;
use crate::outputs::{Output, OutputSet, MAX_OUTPUT_SCALE};

verus! {

/// The scale factor one, expressed in the fractional-scale protocol's unit
/// of 1/120.
pub const SCALE_UNIT: u32 = 120;

/// Who paints the titlebar and border.
#[derive(Clone, Copy, Debug, PartialEq, Eq, Structural)]
pub enum WindowDecorations {
    Client,
    Server,
}

/// How the window's background is composited.
#[derive(Clone, Copy, Debug, PartialEq, Eq, Structural)]
pub enum WindowBackgroundAppearance {
    Opaque,
    Transparent,
    Blurred,
}

/// The system-wide light/dark appearance reported by the environment.
#[derive(Clone, Copy, Debug, PartialEq, Eq, Structural)]
pub enum WindowAppearance {
    Light,
    VibrantLight,
    Dark,
    VibrantDark,
}

/// Decoration state as reported to the toolkit: client-drawn decorations
/// carry the current tiling so the toolkit can skip insets on tiled edges.
#[derive(Clone, Copy, Debug, PartialEq, Eq, Structural)]
pub enum Decorations {
    Server,
    Client { tiling: Tiling },
}

/// The window's bounds together with its fullscreen/maximized disposition.
#[derive(Clone, Copy, Debug, PartialEq, Eq, Structural)]
pub enum WindowBounds {
    Windowed(Bounds),
    Maximized(Bounds),
    Fullscreen(Bounds),
}

/// The edge or corner an interactive resize is started from.
#[derive(Clone, Copy, Debug, PartialEq, Eq, Structural)]
pub enum ResizeEdge {
    Top,
    TopRight,
    Right,
    BottomRight,
    Bottom,
    BottomLeft,
    Left,
    TopLeft,
}

impl ResizeEdge {
    /// The edge's wire value in the shell protocol's resize request.
    pub fn wire_value(&self) -> (r: u32)
        ensures
            r == (match *self {
                ResizeEdge::Top => 1u32,
                ResizeEdge::Bottom => 2u32,
                ResizeEdge::Left => 4u32,
                ResizeEdge::TopLeft => 5u32,
                ResizeEdge::BottomLeft => 6u32,
                ResizeEdge::Right => 8u32,
                ResizeEdge::TopRight => 9u32,
                ResizeEdge::BottomRight => 10u32,
            }),
    {
        match self {
            ResizeEdge::Top => 1,
            ResizeEdge::Bottom => 2,
            ResizeEdge::Left => 4,
            ResizeEdge::TopLeft => 5,
            ResizeEdge::BottomLeft => 6,
            ResizeEdge::Right => 8,
            ResizeEdge::TopRight => 9,
            ResizeEdge::BottomRight => 10,
        }
    }
}

/// What kind of shell surface backs the window.
#[derive(Clone, Copy, Debug, PartialEq, Eq, Structural)]
pub enum Surface {
    /// A normal top-level surface; `decoration` says whether a decoration
    /// negotiation object exists for it.
    Xdg { decoration: bool },
    /// A layer-shell panel surface.
    Layer,
    /// Popup surfaces are not supported.
    Popup,
}

impl Surface {
    pub open spec fn is_xdg(self) -> bool {
        self is Xdg
    }

    pub open spec fn has_decoration(self) -> bool {
        self matches Surface::Xdg { decoration: true }
    }
}

/// What kind of window to create.
#[derive(Clone, Debug, PartialEq, Eq)]
pub enum WindowKind {
    Normal,
    LayerShell(LayerShellSettings),
    PopUp,
}

/// Which optional compositor protocols the connection offers this window.
#[derive(Clone, Copy, Debug, PartialEq, Eq, Structural)]
pub struct Globals {
    pub decoration_manager: bool,
    pub fractional_scale_manager: bool,
    pub viewporter: bool,
    pub blur_manager: bool,
    pub activation: bool,
}

/// Parameters for creating a window.
#[derive(Clone, Debug, PartialEq, Eq)]
pub struct WindowParams {
    pub bounds: Bounds,
    pub kind: WindowKind,
    pub window_min_size: Option<Size>,
}

/// The authoritative, single-writer record of one window.
#[derive(Debug)]
pub struct WindowState {
    /// True from the first acknowledged configure on; gates the one-time
    /// initial frame-callback request.
    pub acknowledged_first_configure: bool,
    /// The shell surface variant backing this window.
    pub surface: Surface,
    pub app_id: Option<String>,
    pub appearance: WindowAppearance,
    /// Whether a blur protocol object currently exists for this surface.
    pub blur: bool,
    /// Whether a viewport object exists for scaled presentation.
    pub viewport: bool,
    /// The outputs the surface currently overlaps.
    pub outputs: OutputSet,
    /// The primary output, recomputed from `outputs`.
    pub display: Option<(u64, Output)>,
    pub globals: Globals,
    /// Current outer bounds in logical pixels; authoritative only after a
    /// configure is acknowledged.
    pub bounds: Bounds,
    /// Logical-to-physical scale in 1/120 units.
    pub scale: u32,
    /// Whether a text-input consumer is attached.
    pub input_handler: bool,
    pub decorations: WindowDecorations,
    pub background_appearance: WindowBackgroundAppearance,
    pub fullscreen: bool,
    pub maximized: bool,
    /// Tiling edges latched from the most recent acknowledged configure.
    pub tiling: Tiling,
    /// The bounds to restore when leaving fullscreen or maximized.
    pub window_bounds: Bounds,
    pub active: bool,
    pub hovered: bool,
    /// A configure payload between receipt and acknowledgment.
    pub in_progress_configure: Option<InProgressConfigure>,
    /// A capability advertisement waiting to be committed with the next
    /// configure acknowledgment.
    pub in_progress_window_controls: Option<WindowControls>,
    pub window_controls: WindowControls,
    /// The client-side decoration inset, once the toolkit has reported one.
    pub inset: Option<i32>,
}

/// A staged configure payload never holds an oversized suggestion, and one
/// that reports fullscreen or maximized has every tiling edge forced, as the
/// decoder guarantees.
pub open spec fn pending_valid(c: InProgressConfigure) -> bool {
    &&& (c.size is Some ==> suggested_size(c.size.unwrap()))
    &&& ((c.fullscreen || c.maximized) ==> c.tiling.all_tiled())
}

impl WindowState {
    /// Geometry, inset and outputs stay inside the ranges all the inset and
    /// scale arithmetic needs, and a fullscreen or maximized window is
    /// always fully tiled.
    pub open spec fn wf(self) -> bool {
        &&& valid_bounds(self.bounds)
        &&& valid_bounds(self.window_bounds)
        &&& (self.inset is Some ==> valid_inset(self.inset.unwrap()))
        &&& (self.in_progress_configure is Some ==> pending_valid(
            self.in_progress_configure.unwrap(),
        ))
        &&& ((self.fullscreen || self.maximized) ==> self.tiling.all_tiled())
        &&& self.outputs.wf()
    }

    /// The initial record for a freshly created surface: nothing
    /// acknowledged, client decorations, opaque background, scale one, and
    /// the requested bounds doubling as the restore bounds.
    pub fn new(
        surface: Surface,
        appearance: WindowAppearance,
        viewport: bool,
        globals: Globals,
        bounds: Bounds,
    ) -> (r: WindowState)
        requires
            valid_bounds(bounds),
        ensures
            r.wf(),
            r.outputs@ == Seq::<(u64, Output)>::empty(),
            r == initial_state(surface, appearance, viewport, globals, bounds, r.outputs),
    {
        WindowState {
            acknowledged_first_configure: false,
            surface,
            app_id: None,
            appearance,
            blur: false,
            viewport,
            outputs: OutputSet::new(),
            display: None,
            globals,
            bounds,
            scale: SCALE_UNIT,
            input_handler: false,
            decorations: WindowDecorations::Client,
            background_appearance: WindowBackgroundAppearance::Opaque,
            fullscreen: false,
            maximized: false,
            tiling: Tiling { top: false, bottom: false, left: false, right: false },
            window_bounds: bounds,
            active: false,
            hovered: false,
            in_progress_configure: None,
            in_progress_window_controls: None,
            window_controls: WindowControls {
                fullscreen: true,
                maximize: true,
                minimize: true,
                window_menu: true,
            },
            inset: None,
        }
    }

    /// True when any pixel of the window may be less than fully opaque:
    /// client-drawn decorations or a non-opaque background.
    pub fn is_transparent(&self) -> (r: bool)
        ensures
            r == spec_is_transparent(*self),
    {
        self.decorations == WindowDecorations::Client || self.background_appearance
            != WindowBackgroundAppearance::Opaque
    }

    /// Recomputes the primary output as the first output found at the
    /// maximum scale among the tracked outputs, stores it in `display`, and
    /// returns that scale; one when no output is tracked.
    pub fn primary_output_scale(&mut self) -> (r: i32)
        requires
            old(self).wf(),
        ensures
            final(self).wf(),
            1 <= r <= MAX_OUTPUT_SCALE,
            forall|i: int|
                0 <= i < old(self).outputs@.len() ==> (#[trigger] old(self).outputs@[i]).1.scale
                    <= r,
            r != 1 ==> exists|i: int|
                0 <= i < old(self).outputs@.len() && (#[trigger] old(self).outputs@[i]).1.scale
                    == r,
            old(self).outputs@.len() == 0 ==> r == 1 && final(self).display is None,
            old(self).outputs@.len() > 0 ==> final(self).display is Some,
            final(self).display is Some ==> exists|j: int|
                {
                    let chosen = final(self).display.unwrap();
                    &&& 0 <= j < old(self).outputs@.len()
                    &&& #[trigger] old(self).outputs@[j] == chosen
                    &&& forall|k: int|
                        0 <= k < old(self).outputs@.len() ==> (#[trigger] old(
                            self,
                        ).outputs@[k]).1.scale <= chosen.1.scale
                    &&& forall|k: int|
                        0 <= k < j ==> (#[trigger] old(self).outputs@[k]).1.scale < chosen.1.scale
                },
            *final(self) == (WindowState { display: final(self).display, ..*old(self) }),
    {
        let (scale, current) = self.outputs.select_primary();
        self.display = current;
        scale
    }
}

pub open spec fn spec_is_transparent(s: WindowState) -> bool {
    s.decorations == WindowDecorations::Client || s.background_appearance
        != WindowBackgroundAppearance::Opaque
}

/// Whether an opaque region is declared to the compositor: only a
/// fully-server-decorated, opaque window may promise opaque pixels.
pub open spec fn spec_declares_opaque_region(s: WindowState) -> bool {
    s.background_appearance == WindowBackgroundAppearance::Opaque && s.decorations
        == WindowDecorations::Server
}

/// A window that declares an opaque region is never transparent.
pub proof fn lemma_opaque_region_never_transparent(s: WindowState)
    ensures
        spec_declares_opaque_region(s) ==> !spec_is_transparent(s),
{
}

/// The initial record of [`WindowState::new`], spelled out; `outputs` is
/// the (empty) output set the record starts with.
pub open spec fn initial_state(
    surface: Surface,
    appearance: WindowAppearance,
    viewport: bool,
    globals: Globals,
    bounds: Bounds,
    outputs: OutputSet,
) -> WindowState {
    WindowState {
        acknowledged_first_configure: false,
        surface,
        app_id: None,
        appearance,
        blur: false,
        viewport,
        outputs,
        display: None,
        globals,
        bounds,
        scale: SCALE_UNIT,
        input_handler: false,
        decorations: WindowDecorations::Client,
        background_appearance: WindowBackgroundAppearance::Opaque,
        fullscreen: false,
        maximized: false,
        tiling: Tiling { top: false, bottom: false, left: false, right: false },
        window_bounds: bounds,
        active: false,
        hovered: false,
        in_progress_configure: None,
        in_progress_window_controls: None,
        window_controls: WindowControls {
            fullscreen: true,
            maximize: true,
            minimize: true,
            window_menu: true,
        },
        inset: None,
    }
}

} // verus!
