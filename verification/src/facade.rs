//! The operation set the owning toolkit sees: construction and teardown,
//! state queries, protocol commands, and callback registration.
//!
//! A command aimed at a surface variant that does not support it (a title on
//! a panel, say) returns `None`: the caller logs the mismatch and skips the
//! request, and the window stays usable.

use vstd::prelude::*;

use crate::actions::Action;
use crate::controller::{
    no_callbacks, spec_close_actions, spec_reconciled_blur, spec_update_window_actions, Callbacks,
    Window,
};
use crate::configure::WindowControls;
use crate::geometry::{
    spec_inset_all, valid_bounds, valid_inset, Bounds, Point, Size, Tiling,
};
use crate::layer_shell::spec_anchor_bits;
use crate::outputs::Output;
use crate::state::{
    initial_state, Decorations, Globals, ResizeEdge, Surface, WindowAppearance,
    WindowBackgroundAppearance, WindowBounds, WindowDecorations, WindowKind, WindowParams,
    WindowState,
};

verus! {

/// Which surface variant backs a window of this kind.
pub open spec fn spec_surface_for(kind: WindowKind, globals: Globals) -> Surface {
    match kind {
        WindowKind::Normal => Surface::Xdg { decoration: globals.decoration_manager },
        WindowKind::LayerShell(_) => Surface::Layer,
        WindowKind::PopUp => Surface::Popup,
    }
}

/// The requests a fresh window sends before its first commit: a normal
/// window declares its minimum size; a layer surface declares its anchors,
/// size, keyboard interactivity, pointer region, margins and exclusive
/// zone.  The final commit starts the configure handshake.
pub open spec fn spec_setup_actions(params: WindowParams) -> Seq<Action> {
    match params.kind {
        WindowKind::Normal => (match params.window_min_size {
            Some(size) => seq![Action::SetMinSize { size }],
            None => Seq::<Action>::empty(),
        }) + seq![Action::CommitSurface],
        WindowKind::LayerShell(settings) => {
            let base = seq![
                Action::SetLayerAnchor { bits: spec_anchor_bits(settings.anchor) },
                Action::LayerSetSize {
                    width: params.bounds.size.width as u32,
                    height: params.bounds.size.height as u32,
                },
                Action::SetLayerKeyboardInteractivity { mode: settings.keyboard_interactivity },
            ];
            let with_pointer = if !settings.pointer_interactivity {
                base.push(Action::SetInputRegionEmpty)
            } else {
                base
            };
            let with_margin = match settings.margin {
                Some(m) => with_pointer.push(
                    Action::SetLayerMargin { top: m.0, right: m.1, bottom: m.2, left: m.3 },
                ),
                None => with_pointer,
            };
            let with_zone = match settings.exclusive_zone {
                Some(zone) => with_margin.push(Action::SetLayerExclusiveZone { zone }),
                None => with_margin,
            };
            with_zone.push(Action::CommitSurface)
        },
        WindowKind::PopUp => Seq::<Action>::empty(),
    }
}

/// The teardown requests of the surface variant, oldest role last.
pub open spec fn spec_surface_teardown_actions(surface: Surface) -> Seq<Action> {
    match surface {
        Surface::Xdg { decoration } => if decoration {
            seq![Action::DestroyXdgSurface, Action::DestroyToplevel, Action::DestroyDecoration]
        } else {
            seq![Action::DestroyXdgSurface, Action::DestroyToplevel]
        },
        Surface::Layer => seq![Action::DestroyLayerSurface],
        Surface::Popup => Seq::<Action>::empty(),
    }
}

/// The guaranteed teardown order: the renderer dies first, then the
/// optional blur and viewport objects, then the base surface, then the
/// surface variant's own objects; only then is the close callback invoked
/// and the owning client registry told to forget the surface.
pub open spec fn spec_teardown_actions(s: WindowState, cb: Callbacks) -> Seq<Action> {
    seq![Action::DestroyRenderer] + (if s.blur {
        seq![Action::ReleaseBlur]
    } else {
        Seq::<Action>::empty()
    }) + (if s.viewport {
        seq![Action::DestroyViewport]
    } else {
        Seq::<Action>::empty()
    }) + seq![Action::DestroyWlSurface] + spec_surface_teardown_actions(s.surface)
        + spec_close_actions(cb) + seq![Action::DropWindowFromClient]
}

/// The window-bounds disposition reported to the toolkit.
pub open spec fn spec_window_bounds(s: WindowState) -> WindowBounds {
    if s.fullscreen {
        WindowBounds::Fullscreen(s.window_bounds)
    } else if s.maximized {
        WindowBounds::Maximized(s.window_bounds)
    } else {
        WindowBounds::Windowed(s.bounds)
    }
}

impl Window {
    /// Creates the state and the setup requests for one application window.
    /// Popup windows are not supported.  The protocol objects themselves
    /// (and the renderer, whose construction may fail and is reported to
    /// the caller) are created by the transport layer around this call.
    pub fn new(params: WindowParams, globals: Globals, appearance: WindowAppearance) -> (r: (
        Window,
        Vec<Action>,
    ))
        requires
            !(params.kind is PopUp),
            valid_bounds(params.bounds),
        ensures
            r.0.state.wf(),
            r.0.state.outputs@ == Seq::<(u64, Output)>::empty(),
            r.0.state == initial_state(
                spec_surface_for(params.kind, globals),
                appearance,
                globals.viewporter,
                globals,
                params.bounds,
                r.0.state.outputs,
            ),
            r.0.callbacks == no_callbacks(),
            r.1@ == spec_setup_actions(params),
    {
        let mut acts: Vec<Action> = Vec::new();
        let surface = match &params.kind {
            WindowKind::Normal => {
                if let Some(size) = params.window_min_size {
                    acts.push(Action::SetMinSize { size });
                }
                Surface::Xdg { decoration: globals.decoration_manager }
            },
            WindowKind::LayerShell(settings) => {
                acts.push(Action::SetLayerAnchor { bits: settings.anchor.bits() });
                acts.push(
                    Action::LayerSetSize {
                        width: params.bounds.size.width as u32,
                        height: params.bounds.size.height as u32,
                    },
                );
                acts.push(
                    Action::SetLayerKeyboardInteractivity {
                        mode: settings.keyboard_interactivity,
                    },
                );
                if !settings.pointer_interactivity {
                    acts.push(Action::SetInputRegionEmpty);
                }
                if let Some(m) = settings.margin {
                    acts.push(Action::SetLayerMargin { top: m.0, right: m.1, bottom: m.2, left: m.3 });
                }
                if let Some(zone) = settings.exclusive_zone {
                    acts.push(Action::SetLayerExclusiveZone { zone });
                }
                Surface::Layer
            },
            WindowKind::PopUp => vstd::pervasive::unreached(),
        };
        acts.push(Action::CommitSurface);
        let state = WindowState::new(
            surface,
            appearance,
            globals.viewporter,
            globals,
            params.bounds,
        );
        let window = Window { state, callbacks: Callbacks::default() };
        proof {
            assert(acts@ =~= spec_setup_actions(params));
        }
        (window, acts)
    }

    /// Tears the window down.  The emitted actions carry the guaranteed
    /// order of [`spec_teardown_actions`]; the close callback is consumed.
    #[verifier::rlimit(30)]
    pub fn teardown(&mut self) -> (acts: Vec<Action>)
        requires
            !(old(self).state.surface is Popup),
        ensures
            final(self).state == (WindowState { blur: false, viewport: false, ..old(self).state }),
            final(self).callbacks == (Callbacks { close: false, ..old(self).callbacks }),
            acts@ == spec_teardown_actions(old(self).state, old(self).callbacks),
    {
        let mut acts: Vec<Action> = Vec::new();
        acts.push(Action::DestroyRenderer);
        if self.state.blur {
            acts.push(Action::ReleaseBlur);
            self.state.blur = false;
        }
        if self.state.viewport {
            acts.push(Action::DestroyViewport);
            self.state.viewport = false;
        }
        acts.push(Action::DestroyWlSurface);
        let ghost front = seq![Action::DestroyRenderer] + (if old(self).state.blur {
            seq![Action::ReleaseBlur]
        } else {
            Seq::<Action>::empty()
        }) + (if old(self).state.viewport {
            seq![Action::DestroyViewport]
        } else {
            Seq::<Action>::empty()
        }) + seq![Action::DestroyWlSurface];
        proof {
            assert(acts@ =~= front);
        }
        match self.state.surface {
            Surface::Xdg { decoration } => {
                acts.push(Action::DestroyXdgSurface);
                acts.push(Action::DestroyToplevel);
                if decoration {
                    acts.push(Action::DestroyDecoration);
                }
            },
            Surface::Layer => {
                acts.push(Action::DestroyLayerSurface);
            },
            Surface::Popup => vstd::pervasive::unreached(),
        }
        proof {
            assert(acts@ =~= front + spec_surface_teardown_actions(old(self).state.surface));
        }
        let mut close_acts = self.close();
        acts.append(&mut close_acts);
        acts.push(Action::DropWindowFromClient);
        proof {
            assert(acts@ =~= front + spec_surface_teardown_actions(old(self).state.surface)
                + spec_close_actions(old(self).callbacks) + seq![Action::DropWindowFromClient]);
            assert(acts@ =~= spec_teardown_actions(old(self).state, old(self).callbacks));
        }
        acts
    }

    /// The current outer bounds in logical pixels.
    pub fn bounds(&self) -> (r: Bounds)
        ensures
            r == self.state.bounds,
    {
        self.state.bounds
    }

    pub fn is_maximized(&self) -> (r: bool)
        ensures
            r == self.state.maximized,
    {
        self.state.maximized
    }

    pub fn is_fullscreen(&self) -> (r: bool)
        ensures
            r == self.state.fullscreen,
    {
        self.state.fullscreen
    }

    pub fn is_active(&self) -> (r: bool)
        ensures
            r == self.state.active,
    {
        self.state.active
    }

    pub fn is_hovered(&self) -> (r: bool)
        ensures
            r == self.state.hovered,
    {
        self.state.hovered
    }

    /// The bounds together with the fullscreen/maximized disposition; the
    /// restore bounds are reported while fullscreen or maximized.
    pub fn window_bounds(&self) -> (r: WindowBounds)
        ensures
            r == spec_window_bounds(self.state),
    {
        if self.state.fullscreen {
            WindowBounds::Fullscreen(self.state.window_bounds)
        } else if self.state.maximized {
            WindowBounds::Maximized(self.state.window_bounds)
        } else {
            WindowBounds::Windowed(self.state.bounds)
        }
    }

    /// Like [`Window::window_bounds`], but a windowed result excludes the
    /// client decoration inset.
    pub fn inner_window_bounds(&self) -> (r: WindowBounds)
        requires
            self.state.wf(),
        ensures
            self.state.fullscreen || self.state.maximized ==> r == spec_window_bounds(self.state),
            !self.state.fullscreen && !self.state.maximized ==> r == WindowBounds::Windowed(
                spec_inset_all(
                    self.state.bounds,
                    if self.state.inset is Some {
                        self.state.inset.unwrap()
                    } else {
                        0
                    },
                ),
            ),
    {
        if self.state.fullscreen {
            WindowBounds::Fullscreen(self.state.window_bounds)
        } else if self.state.maximized {
            WindowBounds::Maximized(self.state.window_bounds)
        } else {
            let inset = match self.state.inset {
                Some(i) => i,
                None => 0,
            };
            WindowBounds::Windowed(self.state.bounds.inset_all(inset))
        }
    }

    /// The content size: the current bounds' size.
    pub fn content_size(&self) -> (r: Size)
        ensures
            r == self.state.bounds.size,
    {
        self.state.bounds.size
    }

    /// The logical-to-physical scale, in 1/120 units.
    pub fn scale_factor(&self) -> (r: u32)
        ensures
            r == self.state.scale,
    {
        self.state.scale
    }

    pub fn appearance(&self) -> (r: WindowAppearance)
        ensures
            r == self.state.appearance,
    {
        self.state.appearance
    }

    /// The primary output, as last recomputed.
    pub fn display_output(&self) -> (r: Option<(u64, Output)>)
        ensures
            r == self.state.display,
    {
        self.state.display
    }

    /// Decoration state for the toolkit: client-drawn decorations carry the
    /// current tiling.
    pub fn window_decorations(&self) -> (r: Decorations)
        ensures
            r == (match self.state.decorations {
                WindowDecorations::Server => Decorations::Server,
                WindowDecorations::Client => Decorations::Client { tiling: self.state.tiling },
            }),
    {
        match self.state.decorations {
            WindowDecorations::Server => Decorations::Server,
            WindowDecorations::Client => Decorations::Client { tiling: self.state.tiling },
        }
    }

    pub fn window_controls(&self) -> (r: WindowControls)
        ensures
            r == self.state.window_controls,
    {
        self.state.window_controls
    }

    /// Attaches the text-input consumer; at most one is attached at a time.
    pub fn set_input_handler(&mut self)
        ensures
            final(self).state == (WindowState { input_handler: true, ..old(self).state }),
            final(self).callbacks == old(self).callbacks,
    {
        self.state.input_handler = true;
    }

    /// Detaches the text-input consumer; the flag says whether one was
    /// attached.
    pub fn take_input_handler(&mut self) -> (r: bool)
        ensures
            r == old(self).state.input_handler,
            final(self).state == (WindowState { input_handler: false, ..old(self).state }),
            final(self).callbacks == old(self).callbacks,
    {
        let had = self.state.input_handler;
        self.state.input_handler = false;
        had
    }

    /// Sets the toplevel's title; a usage mismatch on other variants.
    pub fn set_title(&self, title: String) -> (r: Option<Action>)
        ensures
            r == if self.state.surface.is_xdg() {
                Some(Action::SetTitle { title })
            } else {
                None::<Action>
            },
    {
        match self.state.surface {
            Surface::Xdg { .. } => Some(Action::SetTitle { title }),
            _ => None,
        }
    }

    /// Sets and remembers the application identifier; a usage mismatch on
    /// other variants.
    pub fn set_app_id(&mut self, app_id: String) -> (r: Option<Action>)
        ensures
            final(self).callbacks == old(self).callbacks,
            old(self).state.surface.is_xdg() ==> {
                &&& r == Some(Action::SetAppId { app_id })
                &&& final(self).state == (WindowState {
                    app_id: final(self).state.app_id,
                    ..old(self).state
                })
                &&& final(self).state.app_id matches Some(stored) && stored@ == app_id@
            },
            !old(self).state.surface.is_xdg() ==> r is None && *final(self) == *old(self),
    {
        match self.state.surface {
            Surface::Xdg { .. } => {
                self.state.app_id = Some(app_id.clone());
                Some(Action::SetAppId { app_id })
            },
            _ => None,
        }
    }

    /// Asks the compositor to minimize; a usage mismatch on other variants.
    pub fn minimize(&self) -> (r: Option<Action>)
        ensures
            r == if self.state.surface.is_xdg() {
                Some(Action::SetMinimized)
            } else {
                None::<Action>
            },
    {
        match self.state.surface {
            Surface::Xdg { .. } => Some(Action::SetMinimized),
            _ => None,
        }
    }

    /// Toggles maximized: asks to maximize an unmaximized window and to
    /// unmaximize a maximized one; a usage mismatch on other variants.
    pub fn zoom(&self) -> (r: Option<Action>)
        ensures
            r == if self.state.surface.is_xdg() {
                if !self.state.maximized {
                    Some(Action::SetMaximized)
                } else {
                    Some(Action::UnsetMaximized)
                }
            } else {
                None::<Action>
            },
    {
        match self.state.surface {
            Surface::Xdg { .. } => {
                if !self.state.maximized {
                    Some(Action::SetMaximized)
                } else {
                    Some(Action::UnsetMaximized)
                }
            },
            _ => None,
        }
    }

    /// Toggles fullscreen; a usage mismatch on other variants.
    pub fn toggle_fullscreen(&self) -> (r: Option<Action>)
        ensures
            r == if self.state.surface.is_xdg() {
                if !self.state.fullscreen {
                    Some(Action::SetFullscreen)
                } else {
                    Some(Action::UnsetFullscreen)
                }
            } else {
                None::<Action>
            },
    {
        match self.state.surface {
            Surface::Xdg { .. } => {
                if !self.state.fullscreen {
                    Some(Action::SetFullscreen)
                } else {
                    Some(Action::UnsetFullscreen)
                }
            },
            _ => None,
        }
    }

    /// Opens the compositor's window menu; a usage mismatch on other
    /// variants.
    pub fn show_window_menu(&self, position: Point) -> (r: Option<Action>)
        ensures
            r == if self.state.surface.is_xdg() {
                Some(Action::ShowWindowMenu { position })
            } else {
                None::<Action>
            },
    {
        match self.state.surface {
            Surface::Xdg { .. } => Some(Action::ShowWindowMenu { position }),
            _ => None,
        }
    }

    /// Starts an interactive move; a usage mismatch on other variants.
    pub fn start_window_move(&self) -> (r: Option<Action>)
        ensures
            r == if self.state.surface.is_xdg() {
                Some(Action::StartMove)
            } else {
                None::<Action>
            },
    {
        match self.state.surface {
            Surface::Xdg { .. } => Some(Action::StartMove),
            _ => None,
        }
    }

    /// Starts an interactive resize from the given edge; a usage mismatch
    /// on other variants.
    pub fn start_window_resize(&self, edge: ResizeEdge) -> (r: Option<Action>)
        ensures
            r == if self.state.surface.is_xdg() {
                Some(Action::StartResize { edge })
            } else {
                None::<Action>
            },
    {
        match self.state.surface {
            Surface::Xdg { .. } => Some(Action::StartResize { edge }),
            _ => None,
        }
    }

    /// Requests activation: possible once an app id is set and the
    /// activation protocol exists.
    pub fn activate(&self) -> (r: Option<Action>)
        ensures
            self.state.globals.activation && self.state.app_id is Some ==> (r matches Some(
                Action::RequestActivation { app_id },
            ) && app_id@ == self.state.app_id.unwrap()@),
            !(self.state.globals.activation && self.state.app_id is Some) ==> r is None,
    {
        if self.state.globals.activation {
            match &self.state.app_id {
                Some(app_id) => Some(Action::RequestActivation { app_id: app_id.clone() }),
                None => None,
            }
        } else {
            None
        }
    }

    /// Changes how the background is composited and reconciles the opaque
    /// region and blur.
    pub fn set_background_appearance(&mut self, background_appearance: WindowBackgroundAppearance)
        -> (acts: Vec<Action>)
        requires
            old(self).state.wf(),
        ensures
            final(self).state.wf(),
            final(self).callbacks == old(self).callbacks,
            ({
                let mid = WindowState { background_appearance, ..old(self).state };
                &&& final(self).state == (WindowState { blur: spec_reconciled_blur(mid), ..mid })
                &&& acts@ == spec_update_window_actions(mid)
            }),
    {
        self.state.background_appearance = background_appearance;
        self.update_window()
    }

    /// Requests a decoration mode.  The mode is latched even when no
    /// decoration object exists, but only with one do the request and the
    /// reconciliation go out.
    pub fn request_decorations(&mut self, decorations: WindowDecorations) -> (acts: Vec<Action>)
        requires
            old(self).state.wf(),
        ensures
            final(self).state.wf(),
            final(self).callbacks == old(self).callbacks,
            ({
                let mid = WindowState { decorations, ..old(self).state };
                if old(self).state.surface.has_decoration() {
                    &&& final(self).state == (WindowState {
                        blur: spec_reconciled_blur(mid),
                        ..mid
                    })
                    &&& acts@ == seq![Action::SetDecorationMode { mode: decorations }]
                        + spec_update_window_actions(mid)
                } else {
                    final(self).state == mid && acts@ == Seq::<Action>::empty()
                }
            }),
    {
        self.state.decorations = decorations;
        let has_decoration = match self.state.surface {
            Surface::Xdg { decoration } => decoration,
            _ => false,
        };
        if has_decoration {
            let mut acts: Vec<Action> = Vec::new();
            acts.push(Action::SetDecorationMode { mode: decorations });
            let mut update_acts = self.update_window();
            acts.append(&mut update_acts);
            proof {
                assert(acts@ =~= seq![Action::SetDecorationMode { mode: decorations }]
                    + spec_update_window_actions(
                    WindowState { decorations, ..old(self).state },
                ));
            }
            acts
        } else {
            Vec::new()
        }
    }

    /// Reports the client decoration inset.  A changed inset re-enters the
    /// geometry math and reconciles the opaque region; an unchanged one is
    /// a no-op.
    pub fn set_client_inset(&mut self, inset: i32) -> (acts: Vec<Action>)
        requires
            old(self).state.wf(),
            valid_inset(inset),
        ensures
            final(self).state.wf(),
            final(self).callbacks == old(self).callbacks,
            old(self).state.inset == Some(inset) ==> *final(self) == *old(self) && acts@ == Seq::<
                Action,
            >::empty(),
            old(self).state.inset != Some(inset) ==> ({
                let mid = WindowState { inset: Some(inset), ..old(self).state };
                &&& final(self).state == (WindowState { blur: spec_reconciled_blur(mid), ..mid })
                &&& acts@ == spec_update_window_actions(mid)
            }),
    {
        let same = match self.state.inset {
            Some(i) => i == inset,
            None => false,
        };
        if same {
            return Vec::new();
        }
        self.state.inset = Some(inset);
        self.update_window()
    }

    /// The surface commit that publishes a completed frame.
    pub fn completed_frame(&self) -> (r: Action)
        ensures
            r == Action::CommitSurface,
    {
        Action::CommitSurface
    }

    /// Registers the frame-request callback, replacing any previous one.
    pub fn on_request_frame(&mut self)
        ensures
            final(self).state == old(self).state,
            final(self).callbacks == (Callbacks { request_frame: true, ..old(self).callbacks }),
    {
        self.callbacks.request_frame = true;
    }

    /// Registers the input callback, replacing any previous one.
    pub fn on_input(&mut self)
        ensures
            final(self).state == old(self).state,
            final(self).callbacks == (Callbacks { input: true, ..old(self).callbacks }),
    {
        self.callbacks.input = true;
    }

    /// Registers the focus-change callback, replacing any previous one.
    pub fn on_active_status_change(&mut self)
        ensures
            final(self).state == old(self).state,
            final(self).callbacks == (Callbacks {
                active_status_change: true,
                ..old(self).callbacks
            }),
    {
        self.callbacks.active_status_change = true;
    }

    /// Registers the hover-change callback, replacing any previous one.
    pub fn on_hover_status_change(&mut self)
        ensures
            final(self).state == old(self).state,
            final(self).callbacks == (Callbacks {
                hover_status_change: true,
                ..old(self).callbacks
            }),
    {
        self.callbacks.hover_status_change = true;
    }

    /// Registers the resize callback, replacing any previous one.
    pub fn on_resize(&mut self)
        ensures
            final(self).state == old(self).state,
            final(self).callbacks == (Callbacks { resize: true, ..old(self).callbacks }),
    {
        self.callbacks.resize = true;
    }

    /// Registers the moved callback, replacing any previous one.
    pub fn on_moved(&mut self)
        ensures
            final(self).state == old(self).state,
            final(self).callbacks == (Callbacks { moved: true, ..old(self).callbacks }),
    {
        self.callbacks.moved = true;
    }

    /// Registers the should-close predicate, replacing any previous one.
    pub fn on_should_close(&mut self)
        ensures
            final(self).state == old(self).state,
            final(self).callbacks == (Callbacks { should_close: true, ..old(self).callbacks }),
    {
        self.callbacks.should_close = true;
    }

    /// Registers the close callback, replacing any previous one; it is
    /// invoked at most once.
    pub fn on_close(&mut self)
        ensures
            final(self).state == old(self).state,
            final(self).callbacks == (Callbacks { close: true, ..old(self).callbacks }),
    {
        self.callbacks.close = true;
    }

    /// Registers the appearance-changed callback, replacing any previous
    /// one.
    pub fn on_appearance_changed(&mut self)
        ensures
            final(self).state == old(self).state,
            final(self).callbacks == (Callbacks {
                appearance_changed: true,
                ..old(self).callbacks
            }),
    {
        self.callbacks.appearance_changed = true;
    }
}

} // verus!
