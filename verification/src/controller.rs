//! The window controller: the exclusive receiver of all compositor events
//! for one window.
//!
//! Each handler takes an event as plain values, mutates the window state,
//! and returns the outbound [`Action`]s to perform in order.  Callbacks of
//! the owning toolkit are themselves delivered as actions, so handling an
//! event never re-enters the state.

use vstd::prelude::*;

use crate::actions::Action;
use crate::configure::{
    decode_toplevel_configure, decode_wm_capabilities, spec_extract_states,
    spec_pending_configure, spec_window_controls, InProgressConfigure,
};
use crate::geometry::{
    inset_window_geometry, spec_outer_size, spec_window_geometry, suggested_dim, valid_size,
    Bounds, Point, Size,
};
use crate::outputs::{has_key, valid_output, Output, MAX_OUTPUT_SCALE};
use crate::state::{
    spec_declares_opaque_region, spec_is_transparent, WindowAppearance,
    WindowBackgroundAppearance, WindowState,
};

verus! {

/// An event on the base xdg surface role.
#[derive(Clone, Copy, Debug, PartialEq, Eq, Structural)]
pub enum XdgSurfaceEvent {
    /// The compositor asks the client to acknowledge the pending
    /// configuration under this serial.
    Configure { serial: u32 },
    /// Any other event of the role; ignored.
    Other,
}

/// An event on the toplevel role.
#[derive(Clone, Debug, PartialEq, Eq)]
pub enum ToplevelEvent {
    /// A size/state hint: the suggested content size (zero meaning no
    /// suggestion) and the wire-encoded state array.
    Configure { width: i32, height: i32, states: Vec<u8> },
    /// The compositor asks the window to close.
    Close,
    /// The compositor advertises which window controls it supports, as a
    /// wire-encoded capability array.
    WmCapabilities { capabilities: Vec<u8> },
    /// Any other event of the role; ignored.
    Other,
}

/// An event on the layer-surface role.
#[derive(Clone, Copy, Debug, PartialEq, Eq, Structural)]
pub enum LayerSurfaceEvent {
    Configure { serial: u32, width: u32, height: u32 },
    /// Any other event of the role; ignored.
    Other,
}

/// Wire value of the client-side decoration mode.
pub const DECORATION_MODE_CLIENT_SIDE: u32 = 1;

/// Wire value of the server-side decoration mode.
pub const DECORATION_MODE_SERVER_SIDE: u32 = 2;

/// An event on the decoration negotiation object.
#[derive(Clone, Copy, Debug, PartialEq, Eq, Structural)]
pub enum DecorationEvent {
    /// The decoration mode the compositor chose, as its wire value.
    Configure { mode: u32 },
    /// Any other event of the object; ignored.
    Other,
}

/// An event on the fractional-scale object.
#[derive(Clone, Copy, Debug, PartialEq, Eq, Structural)]
pub enum FractionalScaleEvent {
    /// The preferred scale, in 1/120 units.
    PreferredScale { scale: u32 },
    /// Any other event of the object; ignored.
    Other,
}

/// An event on the base surface.
#[derive(Clone, Copy, Debug, PartialEq, Eq, Structural)]
pub enum SurfaceEvent {
    /// The surface now overlaps the output of the given identity; the
    /// caller resolves the identity to the output's data.
    Enter { id: u64, output: Output },
    /// The surface no longer overlaps the output of the given identity.
    Leave { id: u64 },
    /// The compositor prefers this integer buffer scale.
    PreferredBufferScale { factor: i32 },
    /// Any other event of the surface; ignored.
    Other,
}

/// Which lifecycle callbacks the owning toolkit has registered.  At most
/// one handler exists per event kind; registering again overwrites it, and
/// an event whose kind has no handler is silently dropped.
#[derive(Clone, Copy, Debug, PartialEq, Eq, Structural)]
pub struct Callbacks {
    pub request_frame: bool,
    pub input: bool,
    pub active_status_change: bool,
    pub hover_status_change: bool,
    pub resize: bool,
    pub moved: bool,
    pub should_close: bool,
    pub close: bool,
    pub appearance_changed: bool,
}

impl Default for Callbacks {
    fn default() -> (r: Callbacks)
        ensures
            r == no_callbacks(),
    {
        Callbacks {
            request_frame: false,
            input: false,
            active_status_change: false,
            hover_status_change: false,
            resize: false,
            moved: false,
            should_close: false,
            close: false,
            appearance_changed: false,
        }
    }
}

/// The registry with nothing registered.
pub open spec fn no_callbacks() -> Callbacks {
    Callbacks {
        request_frame: false,
        input: false,
        active_status_change: false,
        hover_status_change: false,
        resize: false,
        moved: false,
        should_close: false,
        close: false,
        appearance_changed: false,
    }
}

/// One window: its authoritative state and its callback registry.
#[derive(Debug)]
pub struct Window {
    pub state: WindowState,
    pub callbacks: Callbacks,
}

/// A logical dimension converted to device pixels: scaled by `scale` in
/// 1/120 units, rounded to nearest.
pub open spec fn device_dim(v: int, scale: int) -> int {
    (v * scale + 60) / 120
}

/// Converts a logical size to device pixels at the given scale.
pub fn device_size(size: Size, scale: u32) -> (r: (u64, u64))
    requires
        valid_size(size),
    ensures
        r.0 == device_dim(size.width as int, scale as int),
        r.1 == device_dim(size.height as int, scale as int),
{
    proof {
        vstd::arithmetic::mul::lemma_mul_upper_bound(
            size.width as int,
            crate::geometry::SIZE_LIMIT as int,
            scale as int,
            u32::MAX as int,
        );
        vstd::arithmetic::mul::lemma_mul_upper_bound(
            size.height as int,
            crate::geometry::SIZE_LIMIT as int,
            scale as int,
            u32::MAX as int,
        );
    }
    let w = ((size.width as u64) * (scale as u64) + 60) / 120;
    let h = ((size.height as u64) * (scale as u64) + 60) / 120;
    (w, h)
}

/// The actions a committed geometry change emits: the renderer learns the
/// new drawable size, the resize callback (when registered) the new logical
/// size and scale, and the viewport (when present) the new destination.
pub open spec fn spec_resize_actions(s: WindowState, cb: Callbacks) -> Seq<Action> {
    let base = seq![
        Action::UpdateDrawableSize {
            width: device_dim(s.bounds.size.width as int, s.scale as int) as u64,
            height: device_dim(s.bounds.size.height as int, s.scale as int) as u64,
        },
    ];
    let with_cb = if cb.resize {
        base.push(Action::InvokeResize { size: s.bounds.size, scale: s.scale })
    } else {
        base
    };
    if s.viewport {
        with_cb.push(
            Action::SetViewportDestination {
                width: s.bounds.size.width,
                height: s.bounds.size.height,
            },
        )
    } else {
        with_cb
    }
}

/// Whether a size/scale change would be a no-op on this state.
pub open spec fn spec_size_scale_noop(
    s: WindowState,
    size: Option<Size>,
    scale: Option<u32>,
) -> bool {
    &&& (size is None || size.unwrap() == s.bounds.size)
    &&& (scale is None || scale.unwrap() == s.scale)
}

/// The state after a size/scale change; unchanged when the change is a
/// no-op.
pub open spec fn spec_sized_scaled(
    s: WindowState,
    size: Option<Size>,
    scale: Option<u32>,
) -> WindowState {
    if spec_size_scale_noop(s, size, scale) {
        s
    } else {
        WindowState {
            bounds: Bounds {
                origin: s.bounds.origin,
                size: if size is Some {
                    size.unwrap()
                } else {
                    s.bounds.size
                },
            },
            scale: if scale is Some {
                scale.unwrap()
            } else {
                s.scale
            },
            ..s
        }
    }
}

/// The actions a size/scale change emits; none when it is a no-op.
pub open spec fn spec_size_scale_actions(
    s: WindowState,
    cb: Callbacks,
    size: Option<Size>,
    scale: Option<u32>,
) -> Seq<Action> {
    if spec_size_scale_noop(s, size, scale) {
        Seq::empty()
    } else {
        spec_resize_actions(spec_sized_scaled(s, size, scale), cb)
    }
}

/// The area promised opaque: the restore bounds, shrunk inward by the
/// inset once one exists.
pub open spec fn spec_opaque_area(s: WindowState) -> Bounds {
    if s.inset is Some {
        crate::geometry::spec_inset_all(s.window_bounds, s.inset.unwrap())
    } else {
        s.window_bounds
    }
}

/// The state after decoration/transparency/blur reconciliation: when a blur
/// manager exists, a blur object exists afterwards exactly for a blurred
/// background; without one nothing changes.
pub open spec fn spec_reconciled_blur(s: WindowState) -> bool {
    if s.globals.blur_manager {
        s.background_appearance == WindowBackgroundAppearance::Blurred
    } else {
        s.blur
    }
}

/// The actions reconciliation emits: the renderer learns the transparency,
/// the compositor the opaque region (declared only for a server-decorated
/// opaque window, cleared otherwise), and the blur object is created and
/// committed, or withdrawn and released, as the background demands.
pub open spec fn spec_update_window_actions(s: WindowState) -> Seq<Action> {
    let base = seq![
        Action::UpdateTransparency { transparent: spec_is_transparent(s) },
        Action::SetOpaqueRegion {
            region: if spec_declares_opaque_region(s) {
                Some(spec_opaque_area(s))
            } else {
                None
            },
        },
    ];
    if s.globals.blur_manager {
        if s.background_appearance == WindowBackgroundAppearance::Blurred {
            if s.blur {
                base.push(Action::CommitBlur)
            } else {
                base.push(Action::CreateBlur).push(Action::CommitBlur)
            }
        } else {
            if s.blur {
                base.push(Action::UnsetBlur).push(Action::ReleaseBlur)
            } else {
                base.push(Action::UnsetBlur)
            }
        }
    } else {
        base
    }
}

/// Every reconciliation states the opaque region anew: it declares one
/// exactly for a server-decorated window over an opaque background, and
/// explicitly clears the declaration in every other case.
pub proof fn lemma_opaque_region_declaration(s: WindowState)
    ensures
        spec_declares_opaque_region(s) ==> spec_update_window_actions(s).contains(
            Action::SetOpaqueRegion { region: Some(spec_opaque_area(s)) },
        ),
        !spec_declares_opaque_region(s) ==> spec_update_window_actions(s).contains(
            Action::SetOpaqueRegion { region: None },
        ),
{
    let acts = spec_update_window_actions(s);
    if spec_declares_opaque_region(s) {
        assert(acts[1] == Action::SetOpaqueRegion { region: Some(spec_opaque_area(s)) });
    } else {
        assert(acts[1] == Action::SetOpaqueRegion { region: None::<Bounds> });
    }
}

impl Window {
    /// Requests a one-shot frame callback from the compositor and invokes
    /// the registered frame-request callback, telling the toolkit it is a
    /// good time to submit a frame.
    pub fn frame(&self) -> (acts: Vec<Action>)
        ensures
            acts@ == spec_frame_actions(self.callbacks),
    {
        let mut acts: Vec<Action> = Vec::new();
        acts.push(Action::RequestFrame);
        if self.callbacks.request_frame {
            acts.push(Action::InvokeRequestFrame);
        }
        proof {
            assert(acts@ =~= spec_frame_actions(self.callbacks));
        }
        acts
    }

    /// The single funnel for all geometry changes, whatever their source:
    /// a no-op when nothing differs, otherwise the state is updated and the
    /// renderer, the resize callback and the viewport learn the new values.
    pub fn set_size_and_scale(&mut self, size: Option<Size>, scale: Option<u32>) -> (acts: Vec<
        Action,
    >)
        requires
            old(self).state.wf(),
            size is Some ==> valid_size(size.unwrap()),
        ensures
            final(self).state.wf(),
            final(self).state == spec_sized_scaled(old(self).state, size, scale),
            final(self).callbacks == old(self).callbacks,
            acts@ == spec_size_scale_actions(old(self).state, old(self).callbacks, size, scale),
    {
        let size_same = match size {
            Some(sz) => sz == self.state.bounds.size,
            None => true,
        };
        let scale_same = match scale {
            Some(sc) => sc == self.state.scale,
            None => true,
        };
        if size_same && scale_same {
            return Vec::new();
        }
        if let Some(sz) = size {
            self.state.bounds.size = sz;
        }
        if let Some(sc) = scale {
            self.state.scale = sc;
        }
        let (dw, dh) = device_size(self.state.bounds.size, self.state.scale);
        let mut acts: Vec<Action> = Vec::new();
        acts.push(Action::UpdateDrawableSize { width: dw, height: dh });
        if self.callbacks.resize {
            acts.push(
                Action::InvokeResize { size: self.state.bounds.size, scale: self.state.scale },
            );
        }
        if self.state.viewport {
            acts.push(
                Action::SetViewportDestination {
                    width: self.state.bounds.size.width,
                    height: self.state.bounds.size.height,
                },
            );
        }
        proof {
            assert(acts@ =~= spec_size_scale_actions(
                old(self).state,
                old(self).callbacks,
                size,
                scale,
            ));
        }
        acts
    }

    /// Applies a new logical size through the resize funnel.
    pub fn resize(&mut self, size: Size) -> (acts: Vec<Action>)
        requires
            old(self).state.wf(),
            valid_size(size),
        ensures
            final(self).state.wf(),
            final(self).state == spec_sized_scaled(old(self).state, Some(size), None),
            final(self).callbacks == old(self).callbacks,
            acts@ == spec_size_scale_actions(
                old(self).state,
                old(self).callbacks,
                Some(size),
                None,
            ),
    {
        self.set_size_and_scale(Some(size), None)
    }

    /// Applies a new scale (in 1/120 units) through the resize funnel.
    pub fn rescale(&mut self, scale: u32) -> (acts: Vec<Action>)
        requires
            old(self).state.wf(),
        ensures
            final(self).state.wf(),
            final(self).state == spec_sized_scaled(old(self).state, None, Some(scale)),
            final(self).callbacks == old(self).callbacks,
            acts@ == spec_size_scale_actions(
                old(self).state,
                old(self).callbacks,
                None,
                Some(scale),
            ),
    {
        self.set_size_and_scale(None, Some(scale))
    }

    /// Reconciles decoration, transparency and blur after any change to
    /// decorations, background appearance or inset: informs the renderer,
    /// declares or clears the opaque region, and creates, commits or
    /// releases the blur object as the background demands.
    pub fn update_window(&mut self) -> (acts: Vec<Action>)
        requires
            old(self).state.wf(),
        ensures
            final(self).state.wf(),
            final(self).state == (WindowState {
                blur: spec_reconciled_blur(old(self).state),
                ..old(self).state
            }),
            final(self).callbacks == old(self).callbacks,
            acts@ == spec_update_window_actions(old(self).state),
    {
        let mut acts: Vec<Action> = Vec::new();
        let transparent = self.state.is_transparent();
        acts.push(Action::UpdateTransparency { transparent });

        let mut opaque_area = self.state.window_bounds;
        if let Some(inset) = self.state.inset {
            opaque_area = opaque_area.inset_all(inset);
        }
        if self.state.background_appearance == WindowBackgroundAppearance::Opaque
            && self.state.decorations == crate::state::WindowDecorations::Server {
            acts.push(Action::SetOpaqueRegion { region: Some(opaque_area) });
        } else {
            acts.push(Action::SetOpaqueRegion { region: None });
        }

        if self.state.globals.blur_manager {
            if self.state.background_appearance == WindowBackgroundAppearance::Blurred {
                if !self.state.blur {
                    acts.push(Action::CreateBlur);
                    self.state.blur = true;
                }
                acts.push(Action::CommitBlur);
            } else {
                acts.push(Action::UnsetBlur);
                if self.state.blur {
                    self.state.blur = false;
                    acts.push(Action::ReleaseBlur);
                }
            }
        }
        proof {
            assert(acts@ =~= spec_update_window_actions(old(self).state));
        }
        acts
    }

    /// Invokes the close callback, which is registered at most once; a
    /// later close finds it already taken.
    pub fn close(&mut self) -> (acts: Vec<Action>)
        ensures
            final(self).state == old(self).state,
            final(self).callbacks == (Callbacks { close: false, ..old(self).callbacks }),
            acts@ == spec_close_actions(old(self).callbacks),
    {
        let mut acts: Vec<Action> = Vec::new();
        if self.callbacks.close {
            self.callbacks.close = false;
            acts.push(Action::InvokeCloseCallback);
        }
        proof {
            assert(acts@ =~= spec_close_actions(old(self).callbacks));
        }
        acts
    }
}

/// The actions of a frame request: the compositor request, then the
/// registered callback.
pub open spec fn spec_frame_actions(cb: Callbacks) -> Seq<Action> {
    if cb.request_frame {
        seq![Action::RequestFrame, Action::InvokeRequestFrame]
    } else {
        seq![Action::RequestFrame]
    }
}

/// The actions of a close: the close callback, if still registered.
pub open spec fn spec_close_actions(cb: Callbacks) -> Seq<Action> {
    if cb.close {
        seq![Action::InvokeCloseCallback]
    } else {
        Seq::empty()
    }
}

/// The appearance-changed callback, if registered.
pub open spec fn spec_appearance_actions(cb: Callbacks) -> Seq<Action> {
    if cb.appearance_changed {
        seq![Action::InvokeAppearanceChanged]
    } else {
        Seq::empty()
    }
}

/// An input event as far as this window's forwarding logic reads it: a
/// key-down may carry the character it resolved to.
#[derive(Clone, Debug, PartialEq, Eq)]
pub enum InputEvent {
    KeyDown { key_char: Option<String> },
    /// Any other input event; nothing is forwarded for it.
    Other,
}

/// An IME edit operation forwarded to the attached text-input handler.
#[derive(Clone, Debug, PartialEq, Eq)]
pub enum ImeInput {
    InsertText(String),
    SetMarkedText(String),
    UnmarkText,
    DeleteText,
}

/// The `display` field holds the first output found at the maximum scale,
/// and holds one exactly when an output is tracked.
pub open spec fn spec_display_is_primary(s: WindowState) -> bool {
    &&& (s.outputs@.len() == 0 <==> s.display is None)
    &&& (s.display is Some ==> exists|j: int|
        {
            let chosen = s.display.unwrap();
            &&& 0 <= j < s.outputs@.len()
            &&& #[trigger] s.outputs@[j] == chosen
            &&& forall|k: int|
                0 <= k < s.outputs@.len() ==> (#[trigger] s.outputs@[k]).1.scale <= chosen.1.scale
            &&& forall|k: int| 0 <= k < j ==> (#[trigger] s.outputs@[k]).1.scale < chosen.1.scale
        })
}

/// The integer scale the primary output dictates: one without a primary
/// output, and never below one.
pub open spec fn spec_display_scale(s: WindowState) -> i32 {
    match s.display {
        None => 1,
        Some(e) => if e.1.scale >= 1 {
            e.1.scale
        } else {
            1
        },
    }
}

/// How an output change reaches the scale: with the fractional-scale
/// protocol present nothing moves (it alone has authority); without it the
/// primary output's integer scale is declared as the buffer scale and
/// applied through the resize funnel.  `mid` is the state with only the
/// output bookkeeping updated.
pub open spec fn spec_buffer_scale_applied(
    s_old: WindowState,
    cb: Callbacks,
    w_new: Window,
    acts: Seq<Action>,
) -> bool {
    let mid = WindowState { outputs: w_new.state.outputs, display: w_new.state.display, ..s_old };
    let r = spec_display_scale(w_new.state);
    let sc = (r * 120) as u32;
    if s_old.globals.fractional_scale_manager {
        w_new.state == mid && acts == Seq::<Action>::empty()
    } else {
        &&& w_new.state == spec_sized_scaled(mid, None, Some(sc))
        &&& acts == seq![Action::SetBufferScale { scale: r }] + spec_size_scale_actions(
            mid,
            cb,
            None,
            Some(sc),
        )
    }
}

/// What a propagated input event forwards to the attached handler: the
/// resolved character of a key-down, inserted at the selection.
pub open spec fn spec_key_forward_actions(input: InputEvent, handler: bool) -> Seq<Action> {
    match input {
        InputEvent::KeyDown { key_char } => match key_char {
            Some(text) => if handler {
                seq![Action::ReplaceTextInRange { range: None, text }]
            } else {
                Seq::empty()
            },
            None => Seq::empty(),
        },
        InputEvent::Other => Seq::empty(),
    }
}

/// What an IME operation forwards to the attached handler; a delete
/// replaces the current marked range, when one exists, with empty text.
pub open spec fn spec_ime_actions(
    ime: ImeInput,
    marked_range: Option<(usize, usize)>,
    handler: bool,
) -> Seq<Action> {
    if !handler {
        Seq::empty()
    } else {
        match ime {
            ImeInput::InsertText(text) => seq![Action::ReplaceTextInRange { range: None, text }],
            ImeInput::SetMarkedText(text) => seq![Action::ReplaceAndMarkTextInRange { text }],
            ImeInput::UnmarkText => seq![Action::UnmarkText],
            ImeInput::DeleteText => match marked_range {
                Some(range) => seq![Action::DeleteTextInRange { start: range.0, end: range.1 }],
                None => Seq::empty(),
            },
        }
    }
}

/// The caret edge of a selection, for IME candidate-window placement: the
/// start of a reversed selection, the end of a forward one, as an empty
/// range.
pub fn ime_caret_range(reversed: bool, start: usize, end: usize) -> (r: (usize, usize))
    ensures
        r == if reversed {
            (start, start)
        } else {
            (end, end)
        },
{
    if reversed {
        (start, start)
    } else {
        (end, end)
    }
}

/// Step one of a configure acknowledgment: a pending capability
/// advertisement becomes authoritative.
pub open spec fn spec_controls_committed(s: WindowState) -> WindowState {
    match s.in_progress_window_controls {
        Some(wc) => WindowState { window_controls: wc, in_progress_window_controls: None, ..s },
        None => s,
    }
}

/// The actions of step one: the appearance-changed callback fires when
/// controls were committed.
pub open spec fn spec_controls_actions(s: WindowState, cb: Callbacks) -> Seq<Action> {
    if s.in_progress_window_controls is Some {
        spec_appearance_actions(cb)
    } else {
        Seq::empty()
    }
}

/// Whether committing this payload is the transition out of maximized.
pub open spec fn spec_got_unmaximized(s: WindowState, c: InProgressConfigure) -> bool {
    s.maximized && !c.maximized
}

/// The size the resize path is handed when the payload is committed: while
/// fullscreen or maximized the raw suggestion; when un-maximizing the saved
/// restore bounds; otherwise the suggestion with the decoration inset added
/// back.
pub open spec fn spec_committed_resize_size(s: WindowState, c: InProgressConfigure) -> Option<
    Size,
> {
    if !c.fullscreen && !c.maximized {
        if spec_got_unmaximized(s, c) {
            Some(s.window_bounds.size)
        } else {
            spec_outer_size(s.inset, c.size, c.tiling)
        }
    } else {
        c.size
    }
}

/// Step two of a configure acknowledgment, before the resize path runs:
/// the fullscreen/maximized/tiling triple is latched from the payload, and
/// the restore bounds are updated exactly when the window ends up neither
/// fullscreen nor maximized and a size is known.
pub open spec fn spec_committed_state(s: WindowState, c: InProgressConfigure) -> WindowState {
    let rs = spec_committed_resize_size(s, c);
    let wb = if !c.fullscreen && !c.maximized && rs is Some {
        Bounds { origin: Point { x: 0, y: 0 }, size: rs.unwrap() }
    } else {
        s.window_bounds
    };
    WindowState {
        in_progress_configure: None,
        fullscreen: c.fullscreen,
        maximized: c.maximized,
        tiling: c.tiling,
        window_bounds: wb,
        ..s
    }
}

/// Steps two and three together: the committed state with the resize path
/// applied, or the state unchanged when no payload was pending.
pub open spec fn spec_after_pending(s1: WindowState) -> WindowState {
    match s1.in_progress_configure {
        Some(c) => {
            let s3 = spec_committed_state(s1, c);
            match spec_committed_resize_size(s1, c) {
                Some(sz) => spec_sized_scaled(s3, Some(sz), None),
                None => s3,
            }
        },
        None => s1,
    }
}

/// The actions of the resize path during a configure acknowledgment.
pub open spec fn spec_pending_actions(s1: WindowState, cb: Callbacks) -> Seq<Action> {
    match s1.in_progress_configure {
        Some(c) => match spec_committed_resize_size(s1, c) {
            Some(sz) => spec_size_scale_actions(spec_committed_state(s1, c), cb, Some(sz), None),
            None => Seq::empty(),
        },
        None => Seq::empty(),
    }
}

/// The full state transition of an acknowledged surface configure.
#[verifier::opaque]
pub open spec fn spec_xdg_configure_state(s: WindowState) -> WindowState {
    WindowState {
        acknowledged_first_configure: true,
        ..spec_after_pending(spec_controls_committed(s))
    }
}

/// The full action list of an acknowledged surface configure: callbacks of
/// the committed steps, the acknowledgment itself, the declared window
/// geometry, and — on the first acknowledgment only — the one-time frame
/// request.
#[verifier::opaque]
pub open spec fn spec_xdg_configure_actions(s: WindowState, cb: Callbacks, serial: u32) -> Seq<
    Action,
> {
    let s1 = spec_controls_committed(s);
    let s4 = spec_after_pending(s1);
    spec_controls_actions(s, cb) + spec_pending_actions(s1, cb) + seq![
        Action::AckConfigure { serial },
        Action::SetWindowGeometry {
            geometry: spec_window_geometry(s4.bounds.size, s4.inset, s4.tiling),
        },
    ] + if s.acknowledged_first_configure {
        Seq::empty()
    } else {
        spec_frame_actions(cb)
    }
}

/// For every acknowledged configure that leaves the window neither
/// fullscreen nor maximized — and is not the un-maximize transition, whose
/// own law follows — the restore bounds become exactly the
/// compositor-suggested size adjusted by the outer-size computation (or
/// stay put when no size was suggested); and whenever the window ends up
/// fullscreen or maximized, the restore bounds stay put.
pub proof fn lemma_configure_ack_window_bounds(s: WindowState, c: InProgressConfigure)
    requires
        !spec_got_unmaximized(s, c),
    ensures
        !c.fullscreen && !c.maximized ==> spec_committed_state(s, c).window_bounds.size == (
        match spec_outer_size(s.inset, c.size, c.tiling) {
            Some(sz) => sz,
            None => s.window_bounds.size,
        }),
        c.fullscreen || c.maximized ==> spec_committed_state(s, c).window_bounds
            == s.window_bounds,
{
}

/// Un-maximizing in one configure restores the restore bounds captured
/// before the maximize began: their size is kept, and that saved size — not
/// a newly computed outer size — is what the resize path applies.
pub proof fn lemma_unmaximize_restores_window_bounds(s: WindowState, c: InProgressConfigure)
    requires
        spec_got_unmaximized(s, c),
        !c.fullscreen,
    ensures
        spec_committed_state(s, c).window_bounds.size == s.window_bounds.size,
        spec_committed_resize_size(s, c) == Some(s.window_bounds.size),
{
}

/// No action of the resize path is a frame-callback request.
proof fn lemma_size_scale_actions_no_frame(
    s: WindowState,
    cb: Callbacks,
    size: Option<Size>,
    scale: Option<u32>,
)
    ensures
        !spec_size_scale_actions(s, cb, size, scale).contains(Action::RequestFrame),
{
    let acts = spec_size_scale_actions(s, cb, size, scale);
    assert forall|i: int| 0 <= i < acts.len() implies acts[i] != Action::RequestFrame by {
        if !spec_size_scale_noop(s, size, scale) {
            assert(acts == spec_resize_actions(spec_sized_scaled(s, size, scale), cb));
        }
    }
}

/// An acknowledged surface configure requests a frame callback exactly when
/// it is the window's first: no later acknowledgment ever re-requests it.
pub proof fn lemma_xdg_configure_requests_frame_iff(s: WindowState, cb: Callbacks, serial: u32)
    ensures
        spec_xdg_configure_actions(s, cb, serial).contains(Action::RequestFrame)
            <==> !s.acknowledged_first_configure,
{
    reveal(spec_xdg_configure_actions);
    let s1 = spec_controls_committed(s);
    let s4 = spec_after_pending(s1);
    let seg1 = spec_controls_actions(s, cb);
    let seg2 = spec_pending_actions(s1, cb);
    let seg3 = seq![
        Action::AckConfigure { serial },
        Action::SetWindowGeometry {
            geometry: spec_window_geometry(s4.bounds.size, s4.inset, s4.tiling),
        },
    ];
    let acts = spec_xdg_configure_actions(s, cb, serial);
    match s1.in_progress_configure {
        Some(c) => match spec_committed_resize_size(s1, c) {
            Some(sz) => {
                lemma_size_scale_actions_no_frame(spec_committed_state(s1, c), cb, Some(sz), None);
            },
            None => {},
        },
        None => {},
    }
    assert(!seg2.contains(Action::RequestFrame));
    if s.acknowledged_first_configure {
        assert(acts =~= seg1 + seg2 + seg3);
        assert forall|i: int| 0 <= i < acts.len() implies acts[i] != Action::RequestFrame by {
            if i < seg1.len() {
                assert(acts[i] == seg1[i]);
            } else if i < seg1.len() + seg2.len() {
                assert(acts[i] == seg2[i - seg1.len()]);
            } else {
                assert(acts[i] == seg3[i - seg1.len() - seg2.len()]);
            }
        }
    } else {
        let idx = seg1.len() + seg2.len() + 2;
        assert(acts[idx as int] == spec_frame_actions(cb)[0]);
        assert(acts[idx as int] == Action::RequestFrame);
    }
}

/// How many frame-callback requests a run of `n` acknowledged configures
/// makes, starting from a window whose first-acknowledgment flag is
/// `acked`: each acknowledgment requests one exactly when the flag is still
/// clear, then sets it, as the configure handlers' contracts state.
pub open spec fn spec_frames_over_acks(acked: bool, n: nat) -> nat
    decreases n,
{
    if n == 0 {
        0
    } else {
        (if acked {
            0nat
        } else {
            1nat
        }) + spec_frames_over_acks(true, (n - 1) as nat)
    }
}

/// Over any run of acknowledged configures, a fresh window requests exactly
/// one frame callback — the first acknowledgment's — and an already
/// acknowledged window requests none.
pub proof fn lemma_first_ack_frames_once(n: nat)
    requires
        n >= 1,
    ensures
        spec_frames_over_acks(false, n) == 1,
        spec_frames_over_acks(true, n) == 0,
    decreases n,
{
    if n == 1 {
        assert(spec_frames_over_acks(true, 0) == 0);
    } else {
        lemma_first_ack_frames_once((n - 1) as nat);
    }
}

impl Window {
    /// Commits a pending capability advertisement, firing the
    /// appearance-changed callback when one was committed.
    fn commit_pending_controls(&mut self) -> (acts: Vec<Action>)
        ensures
            final(self).state == spec_controls_committed(old(self).state),
            final(self).callbacks == old(self).callbacks,
            acts@ == spec_controls_actions(old(self).state, old(self).callbacks),
    {
        let mut acts: Vec<Action> = Vec::new();
        if let Some(wc) = self.state.in_progress_window_controls {
            self.state.window_controls = wc;
            self.state.in_progress_window_controls = None;
            if self.callbacks.appearance_changed {
                acts.push(Action::InvokeAppearanceChanged);
            }
        }
        proof {
            assert(acts@ =~= spec_controls_actions(old(self).state, old(self).callbacks));
        }
        acts
    }

    /// Commits a pending configure payload: latches the
    /// fullscreen/maximized/tiling triple, updates the restore bounds when
    /// the window ends up neither fullscreen nor maximized, and applies the
    /// resulting size through the resize path.
    fn commit_pending_configure(&mut self) -> (acts: Vec<Action>)
        requires
            old(self).state.wf(),
        ensures
            final(self).state.wf(),
            final(self).state == spec_after_pending(old(self).state),
            final(self).callbacks == old(self).callbacks,
            acts@ == spec_pending_actions(old(self).state, old(self).callbacks),
    {
        let mut acts: Vec<Action> = Vec::new();
        if let Some(c) = self.state.in_progress_configure {
            self.state.in_progress_configure = None;
            let got_unmaximized = self.state.maximized && !c.maximized;
            self.state.fullscreen = c.fullscreen;
            self.state.maximized = c.maximized;
            self.state.tiling = c.tiling;
            let mut resize_to: Option<Size> = c.size;
            if !c.fullscreen && !c.maximized {
                resize_to = if got_unmaximized {
                    Some(self.state.window_bounds.size)
                } else {
                    crate::geometry::compute_outer_size(self.state.inset, c.size, c.tiling)
                };
                if let Some(sz) = resize_to {
                    self.state.window_bounds = Bounds { origin: Point { x: 0, y: 0 }, size: sz };
                }
            }
            proof {
                assert(resize_to == spec_committed_resize_size(old(self).state, c));
                assert(self.state == spec_committed_state(old(self).state, c));
            }
            if let Some(sz) = resize_to {
                let mut resize_acts = self.resize(sz);
                acts.append(&mut resize_acts);
            }
        }
        acts
    }

    /// Handles an event of the base xdg surface role.  A configure event
    /// carries no geometry itself: it commits the pending capability
    /// advertisement and the pending configure payload, acknowledges the
    /// serial, declares the resulting window geometry, and — exactly once,
    /// ever — requests the initial frame callback.  On a window not backed
    /// by an xdg surface the event is a usage mismatch and is skipped.
    pub fn handle_xdg_surface_event(&mut self, event: XdgSurfaceEvent) -> (acts: Vec<Action>)
        requires
            old(self).state.wf(),
        ensures
            final(self).state.wf(),
            final(self).callbacks == old(self).callbacks,
            !old(self).state.surface.is_xdg() || event is Other ==> *final(self) == *old(self)
                && acts@ == Seq::<Action>::empty(),
            match event {
                XdgSurfaceEvent::Configure { serial } => old(self).state.surface.is_xdg() ==> {
                    &&& final(self).state == spec_xdg_configure_state(old(self).state)
                    &&& acts@ == spec_xdg_configure_actions(
                        old(self).state,
                        old(self).callbacks,
                        serial,
                    )
                    &&& final(self).state.acknowledged_first_configure
                    &&& (final(self).state.fullscreen || final(self).state.maximized
                        ==> final(self).state.tiling.all_tiled())
                },
                XdgSurfaceEvent::Other => true,
            },
    {
        let is_xdg = match self.state.surface {
            crate::state::Surface::Xdg { .. } => true,
            _ => false,
        };
        if !is_xdg {
            return Vec::new();
        }
        match event {
            XdgSurfaceEvent::Configure { serial } => {
                let ghost s = old(self).state;
                let ghost cb = old(self).callbacks;
                let ghost s1 = spec_controls_committed(s);
                let ghost s4 = spec_after_pending(s1);
                let ghost seg1 = spec_controls_actions(s, cb);
                let ghost seg2 = spec_pending_actions(s1, cb);

                let mut acts = self.commit_pending_controls();
                let mut pending_acts = self.commit_pending_configure();
                acts.append(&mut pending_acts);
                proof {
                    assert(self.state == s4);
                    assert(acts@ == seg1 + seg2);
                }

                acts.push(Action::AckConfigure { serial });
                let geometry = inset_window_geometry(
                    self.state.bounds,
                    self.state.inset,
                    self.state.tiling,
                );
                acts.push(Action::SetWindowGeometry { geometry });
                let ghost seg3 = seq![
                    Action::AckConfigure { serial },
                    Action::SetWindowGeometry {
                        geometry: spec_window_geometry(s4.bounds.size, s4.inset, s4.tiling),
                    },
                ];
                proof {
                    assert(acts@ =~= seg1 + seg2 + seg3);
                }

                if !self.state.acknowledged_first_configure {
                    self.state.acknowledged_first_configure = true;
                    let mut frame_acts = self.frame();
                    acts.append(&mut frame_acts);
                }
                proof {
                    reveal(spec_xdg_configure_state);
                    reveal(spec_xdg_configure_actions);
                    assert(self.state == spec_xdg_configure_state(s));
                    if s.acknowledged_first_configure {
                        assert(acts@ =~= seg1 + seg2 + seg3 + Seq::<Action>::empty());
                    } else {
                        assert(acts@ =~= seg1 + seg2 + seg3 + spec_frame_actions(cb));
                    }
                    assert(acts@ == spec_xdg_configure_actions(s, cb, serial));
                }
                acts
            },
            XdgSurfaceEvent::Other => Vec::new(),
        }
    }

    /// Handles an event of the layer-surface role: a one-phase handshake
    /// that acknowledges immediately, echoes the assigned size, and applies
    /// the same one-time first-frame rule as the xdg handshake.  On a window
    /// not backed by a layer surface the event is a usage mismatch and is
    /// skipped.
    pub fn handle_layer_surface(&mut self, event: LayerSurfaceEvent) -> (acts: Vec<Action>)
        requires
            old(self).state.wf(),
        ensures
            final(self).state.wf(),
            final(self).callbacks == old(self).callbacks,
            !(old(self).state.surface is Layer) || event is Other ==> *final(self) == *old(self)
                && acts@ == Seq::<Action>::empty(),
            match event {
                LayerSurfaceEvent::Configure { serial, width, height } => (old(
                    self,
                ).state.surface is Layer) ==> {
                    &&& final(self).state == (WindowState {
                        acknowledged_first_configure: true,
                        ..old(self).state
                    })
                    &&& acts@ == seq![
                        Action::LayerAckConfigure { serial },
                        Action::LayerSetSize { width, height },
                    ] + if old(self).state.acknowledged_first_configure {
                        Seq::<Action>::empty()
                    } else {
                        spec_frame_actions(old(self).callbacks)
                    }
                    &&& final(self).state.acknowledged_first_configure
                },
                LayerSurfaceEvent::Other => true,
            },
    {
        let is_layer = match self.state.surface {
            crate::state::Surface::Layer => true,
            _ => false,
        };
        if !is_layer {
            return Vec::new();
        }
        match event {
            LayerSurfaceEvent::Configure { serial, width, height } => {
                let mut acts: Vec<Action> = Vec::new();
                acts.push(Action::LayerAckConfigure { serial });
                acts.push(Action::LayerSetSize { width, height });
                if !self.state.acknowledged_first_configure {
                    self.state.acknowledged_first_configure = true;
                    let mut frame_acts = self.frame();
                    acts.append(&mut frame_acts);
                    proof {
                        assert(acts@ =~= seq![
                            Action::LayerAckConfigure { serial },
                            Action::LayerSetSize { width, height },
                        ] + spec_frame_actions(old(self).callbacks));
                    }
                } else {
                    proof {
                        assert(acts@ =~= seq![
                            Action::LayerAckConfigure { serial },
                            Action::LayerSetSize { width, height },
                        ] + Seq::<Action>::empty());
                    }
                }
                acts
            },
            LayerSurfaceEvent::Other => Vec::new(),
        }
    }

    /// Handles a decoration-mode configure: latches who paints the
    /// decorations and fires the appearance-changed callback.  An unknown
    /// mode is a protocol anomaly and is ignored.
    pub fn handle_toplevel_decoration_event(&mut self, event: DecorationEvent) -> (acts: Vec<
        Action,
    >)
        ensures
            final(self).callbacks == old(self).callbacks,
            match event {
                DecorationEvent::Configure { mode } => {
                    if mode == DECORATION_MODE_SERVER_SIDE {
                        &&& final(self).state == (WindowState {
                            decorations: crate::state::WindowDecorations::Server,
                            ..old(self).state
                        })
                        &&& acts@ == spec_appearance_actions(old(self).callbacks)
                    } else if mode == DECORATION_MODE_CLIENT_SIDE {
                        &&& final(self).state == (WindowState {
                            decorations: crate::state::WindowDecorations::Client,
                            ..old(self).state
                        })
                        &&& acts@ == spec_appearance_actions(old(self).callbacks)
                    } else {
                        *final(self) == *old(self) && acts@ == Seq::<Action>::empty()
                    }
                },
                DecorationEvent::Other => *final(self) == *old(self) && acts@ == Seq::<
                    Action,
                >::empty(),
            },
    {
        match event {
            DecorationEvent::Configure { mode } => {
                let mut acts: Vec<Action> = Vec::new();
                if mode == DECORATION_MODE_SERVER_SIDE {
                    self.state.decorations = crate::state::WindowDecorations::Server;
                    if self.callbacks.appearance_changed {
                        acts.push(Action::InvokeAppearanceChanged);
                    }
                    proof {
                        assert(acts@ =~= spec_appearance_actions(old(self).callbacks));
                    }
                } else if mode == DECORATION_MODE_CLIENT_SIDE {
                    self.state.decorations = crate::state::WindowDecorations::Client;
                    if self.callbacks.appearance_changed {
                        acts.push(Action::InvokeAppearanceChanged);
                    }
                    proof {
                        assert(acts@ =~= spec_appearance_actions(old(self).callbacks));
                    }
                }
                acts
            },
            DecorationEvent::Other => Vec::new(),
        }
    }

    /// Handles a fractional-scale preferred-scale event: the compositor
    /// reports the scale in 1/120 units, which is applied through the
    /// resize funnel.
    pub fn handle_fractional_scale_event(&mut self, event: FractionalScaleEvent) -> (acts: Vec<
        Action,
    >)
        requires
            old(self).state.wf(),
        ensures
            final(self).state.wf(),
            final(self).callbacks == old(self).callbacks,
            match event {
                FractionalScaleEvent::PreferredScale { scale } => {
                    &&& final(self).state == spec_sized_scaled(old(self).state, None, Some(scale))
                    &&& acts@ == spec_size_scale_actions(
                        old(self).state,
                        old(self).callbacks,
                        None,
                        Some(scale),
                    )
                },
                FractionalScaleEvent::Other => *final(self) == *old(self) && acts@ == Seq::<
                    Action,
                >::empty(),
            },
    {
        match event {
            FractionalScaleEvent::PreferredScale { scale } => self.rescale(scale),
            FractionalScaleEvent::Other => Vec::new(),
        }
    }

    /// Handles an event of the toplevel role.  A configure stashes the
    /// decoded payload as the pending configure (overwriting an
    /// unacknowledged one) without touching authoritative state; a
    /// capability advertisement is stashed the same way; a close request
    /// asks the registered should-close predicate through an action, or —
    /// with none registered — closes at once.  The returned flag says
    /// whether the window should close now.
    pub fn handle_toplevel_event(&mut self, event: ToplevelEvent) -> (r: (bool, Vec<Action>))
        requires
            old(self).state.wf(),
            match event {
                ToplevelEvent::Configure { width, height, .. } => suggested_dim(width)
                    && suggested_dim(height),
                _ => true,
            },
        ensures
            final(self).state.wf(),
            match event {
                ToplevelEvent::Configure { width, height, states } => {
                    &&& final(self).state == (WindowState {
                        in_progress_configure: Some(
                            spec_pending_configure(width, height, spec_extract_states(states@)),
                        ),
                        ..old(self).state
                    })
                    &&& final(self).callbacks == old(self).callbacks
                    &&& r.0 == false
                    &&& r.1@ == Seq::<Action>::empty()
                },
                ToplevelEvent::Close => {
                    if old(self).callbacks.should_close {
                        &&& *final(self) == *old(self)
                        &&& r.0 == false
                        &&& r.1@ == seq![Action::InvokeShouldClose]
                    } else {
                        &&& *final(self) == *old(self)
                        &&& r.0 == true
                        &&& r.1@ == Seq::<Action>::empty()
                    }
                },
                ToplevelEvent::WmCapabilities { capabilities } => {
                    &&& final(self).state == (WindowState {
                        in_progress_window_controls: Some(
                            spec_window_controls(spec_extract_states(capabilities@)),
                        ),
                        ..old(self).state
                    })
                    &&& final(self).callbacks == old(self).callbacks
                    &&& r.0 == false
                    &&& r.1@ == Seq::<Action>::empty()
                },
                ToplevelEvent::Other => *final(self) == *old(self) && r.0 == false && r.1@
                    == Seq::<Action>::empty(),
            },
    {
        match event {
            ToplevelEvent::Configure { width, height, states } => {
                let pending = decode_toplevel_configure(width, height, states.as_slice());
                self.state.in_progress_configure = Some(pending);
                (false, Vec::new())
            },
            ToplevelEvent::Close => {
                if self.callbacks.should_close {
                    let mut acts: Vec<Action> = Vec::new();
                    acts.push(Action::InvokeShouldClose);
                    proof {
                        assert(acts@ =~= seq![Action::InvokeShouldClose]);
                    }
                    (false, acts)
                } else {
                    (true, Vec::new())
                }
            },
            ToplevelEvent::WmCapabilities { capabilities } => {
                let controls = decode_wm_capabilities(capabilities.as_slice());
                self.state.in_progress_window_controls = Some(controls);
                (false, Vec::new())
            },
            ToplevelEvent::Other => (false, Vec::new()),
        }
    }

    /// Handles an event of the base surface.  Entering or leaving an output
    /// updates the tracked set and recomputes the primary output; the
    /// recomputed integer scale is applied through the buffer-scale path
    /// only when the fractional-scale protocol is unavailable, since that
    /// protocol, when present, is the sole authority over scaling.
    pub fn handle_surface_event(&mut self, event: SurfaceEvent) -> (acts: Vec<Action>)
        requires
            old(self).state.wf(),
            match event {
                SurfaceEvent::Enter { output, .. } => valid_output(output),
                SurfaceEvent::PreferredBufferScale { factor } => 1 <= factor
                    <= MAX_OUTPUT_SCALE,
                _ => true,
            },
        ensures
            final(self).state.wf(),
            final(self).callbacks == old(self).callbacks,
            match event {
                SurfaceEvent::Enter { id, output } => {
                    &&& (!has_key(old(self).state.outputs@, id) ==> final(self).state.outputs@
                        == old(self).state.outputs@.push((id, output)))
                    &&& (has_key(old(self).state.outputs@, id) ==> exists|j: int|
                        {
                            &&& 0 <= j < old(self).state.outputs@.len()
                            &&& (#[trigger] old(self).state.outputs@[j]).0 == id
                            &&& final(self).state.outputs@ == old(self).state.outputs@.update(
                                j,
                                (id, output),
                            )
                        })
                    &&& spec_display_is_primary(final(self).state)
                    &&& spec_buffer_scale_applied(
                        old(self).state,
                        old(self).callbacks,
                        *final(self),
                        acts@,
                    )
                },
                SurfaceEvent::Leave { id } => {
                    &&& (!has_key(old(self).state.outputs@, id) ==> final(self).state.outputs@
                        == old(self).state.outputs@)
                    &&& (has_key(old(self).state.outputs@, id) ==> exists|j: int|
                        {
                            &&& 0 <= j < old(self).state.outputs@.len()
                            &&& (#[trigger] old(self).state.outputs@[j]).0 == id
                            &&& final(self).state.outputs@ == old(self).state.outputs@.subrange(
                                0,
                                j,
                            ) + old(self).state.outputs@.subrange(
                                j + 1,
                                old(self).state.outputs@.len() as int,
                            )
                        })
                    &&& !has_key(final(self).state.outputs@, id)
                    &&& spec_display_is_primary(final(self).state)
                    &&& spec_buffer_scale_applied(
                        old(self).state,
                        old(self).callbacks,
                        *final(self),
                        acts@,
                    )
                },
                SurfaceEvent::PreferredBufferScale { factor } => {
                    if old(self).state.globals.fractional_scale_manager {
                        *final(self) == *old(self) && acts@ == Seq::<Action>::empty()
                    } else {
                        let sc = (factor * 120) as u32;
                        &&& final(self).state == spec_sized_scaled(
                            old(self).state,
                            None,
                            Some(sc),
                        )
                        &&& acts@ == seq![Action::SetBufferScale { scale: factor }]
                            + spec_size_scale_actions(
                            old(self).state,
                            old(self).callbacks,
                            None,
                            Some(sc),
                        )
                    }
                },
                SurfaceEvent::Other => *final(self) == *old(self) && acts@ == Seq::<
                    Action,
                >::empty(),
            },
    {
        match event {
            SurfaceEvent::Enter { id, output } => {
                self.state.outputs.insert(id, output);
                self.apply_buffer_scale()
            },
            SurfaceEvent::Leave { id } => {
                self.state.outputs.remove(id);
                self.apply_buffer_scale()
            },
            SurfaceEvent::PreferredBufferScale { factor } => {
                if !self.state.globals.fractional_scale_manager {
                    let mut acts: Vec<Action> = Vec::new();
                    acts.push(Action::SetBufferScale { scale: factor });
                    let mut rescale_acts = self.rescale((factor * 120) as u32);
                    acts.append(&mut rescale_acts);
                    proof {
                        assert(acts@ =~= seq![Action::SetBufferScale { scale: factor }]
                            + spec_size_scale_actions(
                            old(self).state,
                            old(self).callbacks,
                            None,
                            Some((factor * 120) as u32),
                        ));
                    }
                    acts
                } else {
                    Vec::new()
                }
            },
            SurfaceEvent::Other => Vec::new(),
        }
    }

    /// Recomputes the primary output and, when the fractional-scale
    /// protocol is unavailable, falls back to its integer scale through the
    /// buffer-scale path.
    fn apply_buffer_scale(&mut self) -> (acts: Vec<Action>)
        requires
            old(self).state.wf(),
        ensures
            final(self).state.wf(),
            final(self).callbacks == old(self).callbacks,
            final(self).state.outputs@ == old(self).state.outputs@,
            spec_display_is_primary(final(self).state),
            spec_buffer_scale_applied(old(self).state, old(self).callbacks, *final(self), acts@),
    {
        let scale = self.state.primary_output_scale();
        proof {
            assert(scale == spec_display_scale(self.state)) by {
                if self.state.display is Some {
                    let chosen = self.state.display.unwrap();
                    let j = choose|j: int|
                        {
                            &&& 0 <= j < old(self).state.outputs@.len()
                            &&& #[trigger] old(self).state.outputs@[j] == chosen
                            &&& forall|k: int|
                                0 <= k < old(self).state.outputs@.len() ==> (#[trigger] old(
                                    self,
                                ).state.outputs@[k]).1.scale <= chosen.1.scale
                            &&& forall|k: int|
                                0 <= k < j ==> (#[trigger] old(self).state.outputs@[k]).1.scale
                                    < chosen.1.scale
                        };
                    assert(chosen.1.scale <= scale);
                    if scale != 1 {
                        let i = choose|i: int|
                            0 <= i < old(self).state.outputs@.len() && (#[trigger] old(
                                self,
                            ).state.outputs@[i]).1.scale == scale;
                        assert(old(self).state.outputs@[i].1.scale <= chosen.1.scale);
                    } else {
                        assert(valid_output(old(self).state.outputs@[j].1));
                    }
                }
            }
        }
        if !self.state.globals.fractional_scale_manager {
            let mut acts: Vec<Action> = Vec::new();
            acts.push(Action::SetBufferScale { scale });
            let ghost mid = *self;
            let mut rescale_acts = self.rescale((scale * 120) as u32);
            acts.append(&mut rescale_acts);
            proof {
                assert(acts@ =~= seq![Action::SetBufferScale { scale }]
                    + spec_size_scale_actions(
                    mid.state,
                    mid.callbacks,
                    None,
                    Some((scale * 120) as u32),
                ));
            }
            acts
        } else {
            Vec::new()
        }
    }

    /// Forwards an input event: `propagate` is what the registered input
    /// callback returned (it is ignored when none is registered).  A
    /// propagated key-down that resolved to a character is inserted into
    /// the attached text-input handler.
    pub fn handle_input(&self, input: InputEvent, propagate: bool) -> (acts: Vec<Action>)
        ensures
            acts@ == if self.callbacks.input && !propagate {
                Seq::<Action>::empty()
            } else {
                spec_key_forward_actions(input, self.state.input_handler)
            },
    {
        if self.callbacks.input && !propagate {
            return Vec::new();
        }
        match input {
            InputEvent::KeyDown { key_char } => match key_char {
                Some(text) => {
                    if self.state.input_handler {
                        let mut acts: Vec<Action> = Vec::new();
                        acts.push(Action::ReplaceTextInRange { range: None, text });
                        acts
                    } else {
                        Vec::new()
                    }
                },
                None => Vec::new(),
            },
            InputEvent::Other => Vec::new(),
        }
    }

    /// Dispatches an IME operation to the attached text-input handler;
    /// `marked_range` is the handler's current marked range, which only a
    /// delete consults.  Without an attached handler the operation is
    /// dropped.
    pub fn handle_ime(&self, ime: ImeInput, marked_range: Option<(usize, usize)>) -> (acts: Vec<
        Action,
    >)
        ensures
            acts@ == spec_ime_actions(ime, marked_range, self.state.input_handler),
    {
        if !self.state.input_handler {
            return Vec::new();
        }
        let mut acts: Vec<Action> = Vec::new();
        match ime {
            ImeInput::InsertText(text) => {
                acts.push(Action::ReplaceTextInRange { range: None, text });
            },
            ImeInput::SetMarkedText(text) => {
                acts.push(Action::ReplaceAndMarkTextInRange { text });
            },
            ImeInput::UnmarkText => {
                acts.push(Action::UnmarkText);
            },
            ImeInput::DeleteText => {
                if let Some(range) = marked_range {
                    acts.push(Action::DeleteTextInRange { start: range.0, end: range.1 });
                }
            },
        }
        acts
    }

    /// Latches the focus flag and fires the focus-change callback.
    pub fn set_focused(&mut self, focus: bool) -> (acts: Vec<Action>)
        ensures
            final(self).state == (WindowState { active: focus, ..old(self).state }),
            final(self).callbacks == old(self).callbacks,
            acts@ == if old(self).callbacks.active_status_change {
                seq![Action::InvokeActiveStatusChange { active: focus }]
            } else {
                Seq::<Action>::empty()
            },
    {
        self.state.active = focus;
        let mut acts: Vec<Action> = Vec::new();
        if self.callbacks.active_status_change {
            acts.push(Action::InvokeActiveStatusChange { active: focus });
        }
        acts
    }

    /// Latches the hover flag and fires the hover-change callback.
    pub fn set_hovered(&mut self, hovered: bool) -> (acts: Vec<Action>)
        ensures
            final(self).state == (WindowState { hovered, ..old(self).state }),
            final(self).callbacks == old(self).callbacks,
            acts@ == if old(self).callbacks.hover_status_change {
                seq![Action::InvokeHoverStatusChange { hovered }]
            } else {
                Seq::<Action>::empty()
            },
    {
        self.state.hovered = hovered;
        let mut acts: Vec<Action> = Vec::new();
        if self.callbacks.hover_status_change {
            acts.push(Action::InvokeHoverStatusChange { hovered });
        }
        acts
    }

    /// Latches the reported system appearance and fires the
    /// appearance-changed callback.
    pub fn set_appearance(&mut self, appearance: WindowAppearance) -> (acts: Vec<Action>)
        ensures
            final(self).state == (WindowState { appearance, ..old(self).state }),
            final(self).callbacks == old(self).callbacks,
            acts@ == spec_appearance_actions(old(self).callbacks),
    {
        self.state.appearance = appearance;
        let mut acts: Vec<Action> = Vec::new();
        if self.callbacks.appearance_changed {
            acts.push(Action::InvokeAppearanceChanged);
        }
        proof {
            assert(acts@ =~= spec_appearance_actions(old(self).callbacks));
        }
        acts
    }

    /// Completes a close request once the should-close predicate has
    /// answered: an allowed close invokes the close callback; a denied one
    /// does nothing.  The returned flag says whether the window closes.
    pub fn resolve_close_request(&mut self, should_close: bool) -> (r: (bool, Vec<Action>))
        ensures
            r.0 == should_close,
            final(self).state == old(self).state,
            should_close ==> final(self).callbacks == (Callbacks {
                close: false,
                ..old(self).callbacks
            }) && r.1@ == spec_close_actions(old(self).callbacks),
            !should_close ==> final(self).callbacks == old(self).callbacks && r.1@ == Seq::<
                Action,
            >::empty(),
    {
        if should_close {
            let acts = self.close();
            (true, acts)
        } else {
            (false, Vec::new())
        }
    }
}

} // verus!
