use wayland_window::actions::Action;
use wayland_window::controller::{
    ime_caret_range, DecorationEvent, FractionalScaleEvent, ImeInput, InputEvent, Window,
};
use wayland_window::geometry::{Bounds, Point, Size, Tiling};
use wayland_window::layer_shell::LayerShellSettings;
use wayland_window::state::{
    Decorations, Globals, ResizeEdge, WindowAppearance, WindowBackgroundAppearance,
    WindowDecorations, WindowKind, WindowParams,
};

fn globals() -> Globals {
    Globals {
        decoration_manager: true,
        fractional_scale_manager: true,
        viewporter: true,
        blur_manager: true,
        activation: true,
    }
}

fn new_window(globals: Globals) -> Window {
    let params = WindowParams {
        bounds: Bounds { origin: Point { x: 0, y: 0 }, size: Size { width: 400, height: 300 } },
        kind: WindowKind::Normal,
        window_min_size: None,
    };
    let (window, _) = Window::new(params, globals, WindowAppearance::Light);
    window
}

fn new_layer_window(globals: Globals) -> Window {
    let params = WindowParams {
        bounds: Bounds { origin: Point { x: 0, y: 0 }, size: Size { width: 64, height: 32 } },
        kind: WindowKind::LayerShell(LayerShellSettings::default()),
        window_min_size: None,
    };
    let (window, _) = Window::new(params, globals, WindowAppearance::Light);
    window
}

#[test]
fn initial_state_values() {
    let w = new_window(globals());
    assert!(!w.state.acknowledged_first_configure);
    assert_eq!(w.scale_factor(), 120);
    assert!(!w.is_maximized() && !w.is_fullscreen());
    assert!(!w.is_active() && !w.is_hovered());
    assert_eq!(w.content_size(), Size { width: 400, height: 300 });
    assert_eq!(w.appearance(), WindowAppearance::Light);
    let wc = w.window_controls();
    assert!(wc.fullscreen && wc.maximize && wc.minimize && wc.window_menu);
    assert_eq!(
        w.window_decorations(),
        Decorations::Client {
            tiling: Tiling { top: false, bottom: false, left: false, right: false }
        }
    );
}

#[test]
fn normal_setup_declares_min_size_and_commits() {
    let params = WindowParams {
        bounds: Bounds { origin: Point { x: 0, y: 0 }, size: Size { width: 400, height: 300 } },
        kind: WindowKind::Normal,
        window_min_size: Some(Size { width: 200, height: 100 }),
    };
    let (_, acts) = Window::new(params, globals(), WindowAppearance::Light);
    assert_eq!(
        acts,
        vec![
            Action::SetMinSize { size: Size { width: 200, height: 100 } },
            Action::CommitSurface,
        ]
    );
}

#[test]
fn layer_setup_declares_settings_and_commits() {
    let mut settings = LayerShellSettings::default();
    settings.pointer_interactivity = false;
    settings.margin = Some((1, 2, 3, 4));
    settings.exclusive_zone = Some(24);
    let params = WindowParams {
        bounds: Bounds { origin: Point { x: 0, y: 0 }, size: Size { width: 64, height: 32 } },
        kind: WindowKind::LayerShell(settings.clone()),
        window_min_size: None,
    };
    let (_, acts) = Window::new(params, globals(), WindowAppearance::Light);
    assert_eq!(
        acts,
        vec![
            Action::SetLayerAnchor { bits: 12 },
            Action::LayerSetSize { width: 64, height: 32 },
            Action::SetLayerKeyboardInteractivity {
                mode: settings.keyboard_interactivity,
            },
            Action::SetInputRegionEmpty,
            Action::SetLayerMargin { top: 1, right: 2, bottom: 3, left: 4 },
            Action::SetLayerExclusiveZone { zone: 24 },
            Action::CommitSurface,
        ]
    );
}

#[test]
fn transparency_follows_decorations_and_background() {
    let mut w = new_window(globals());
    // client decorations over an opaque background: still transparent
    assert!(w.state.is_transparent());
    w.handle_toplevel_decoration_event(DecorationEvent::Configure { mode: 2 });
    assert!(!w.state.is_transparent());
    w.set_background_appearance(WindowBackgroundAppearance::Transparent);
    assert!(w.state.is_transparent());
    w.set_background_appearance(WindowBackgroundAppearance::Opaque);
    assert!(!w.state.is_transparent());
}

#[test]
fn opaque_region_declared_only_for_server_opaque() {
    let mut w = new_window(globals());
    w.handle_toplevel_decoration_event(DecorationEvent::Configure { mode: 2 });
    let acts = w.set_background_appearance(WindowBackgroundAppearance::Opaque);
    assert_eq!(acts[0], Action::UpdateTransparency { transparent: false });
    let region = Bounds { origin: Point { x: 0, y: 0 }, size: Size { width: 400, height: 300 } };
    assert_eq!(acts[1], Action::SetOpaqueRegion { region: Some(region) });

    let acts = w.set_background_appearance(WindowBackgroundAppearance::Transparent);
    assert_eq!(acts[0], Action::UpdateTransparency { transparent: true });
    assert_eq!(acts[1], Action::SetOpaqueRegion { region: None });

    w.handle_toplevel_decoration_event(DecorationEvent::Configure { mode: 1 });
    let acts = w.set_background_appearance(WindowBackgroundAppearance::Opaque);
    assert_eq!(acts[1], Action::SetOpaqueRegion { region: None });
}

#[test]
fn blur_object_created_once_and_released() {
    let mut w = new_window(globals());
    assert!(!w.state.blur);
    let acts = w.set_background_appearance(WindowBackgroundAppearance::Blurred);
    let creations = acts.iter().filter(|a| **a == Action::CreateBlur).count();
    let commits = acts.iter().filter(|a| **a == Action::CommitBlur).count();
    assert_eq!(creations, 1);
    assert_eq!(commits, 1);
    assert!(w.state.blur);
    // a second reconciliation re-commits but does not re-create
    let acts = w.set_background_appearance(WindowBackgroundAppearance::Blurred);
    assert!(!acts.contains(&Action::CreateBlur));
    assert!(acts.contains(&Action::CommitBlur));
    // back to opaque: an explicit un-set, then the release
    let acts = w.set_background_appearance(WindowBackgroundAppearance::Opaque);
    let unset_at = acts.iter().position(|a| *a == Action::UnsetBlur).unwrap();
    let release_at = acts.iter().position(|a| *a == Action::ReleaseBlur).unwrap();
    assert!(unset_at < release_at);
    assert!(!w.state.blur);
    // and with no object left, only the un-set goes out
    let acts = w.set_background_appearance(WindowBackgroundAppearance::Opaque);
    assert!(acts.contains(&Action::UnsetBlur));
    assert!(!acts.contains(&Action::ReleaseBlur));
}

#[test]
fn blur_untouched_without_manager() {
    let mut g = globals();
    g.blur_manager = false;
    let mut w = new_window(g);
    let acts = w.set_background_appearance(WindowBackgroundAppearance::Blurred);
    assert!(!acts.contains(&Action::CreateBlur));
    assert!(!w.state.blur);
}

#[test]
fn unknown_decoration_mode_ignored() {
    let mut w = new_window(globals());
    let before = w.state.decorations;
    let acts = w.handle_toplevel_decoration_event(DecorationEvent::Configure { mode: 77 });
    assert!(acts.is_empty());
    assert_eq!(w.state.decorations, before);
}

#[test]
fn decoration_event_fires_appearance_callback() {
    let mut w = new_window(globals());
    w.on_appearance_changed();
    let acts = w.handle_toplevel_decoration_event(DecorationEvent::Configure { mode: 2 });
    assert_eq!(acts, vec![Action::InvokeAppearanceChanged]);
    assert_eq!(w.state.decorations, WindowDecorations::Server);
    assert_eq!(w.window_decorations(), Decorations::Server);
}

#[test]
fn fractional_scale_resizes_drawable() {
    let mut w = new_window(globals());
    w.on_resize();
    let acts = w.handle_fractional_scale_event(FractionalScaleEvent::PreferredScale {
        scale: 180,
    });
    assert_eq!(w.scale_factor(), 180);
    assert_eq!(
        acts,
        vec![
            Action::UpdateDrawableSize { width: 600, height: 450 },
            Action::InvokeResize { size: Size { width: 400, height: 300 }, scale: 180 },
            Action::SetViewportDestination { width: 400, height: 300 },
        ]
    );
    // the same scale again is a no-op
    let acts = w.handle_fractional_scale_event(FractionalScaleEvent::PreferredScale {
        scale: 180,
    });
    assert!(acts.is_empty());
}

#[test]
fn set_size_and_scale_noop_when_unchanged() {
    let mut w = new_window(globals());
    let acts = w.set_size_and_scale(Some(Size { width: 400, height: 300 }), Some(120));
    assert!(acts.is_empty());
}

#[test]
fn input_respects_propagation_and_handler() {
    let mut w = new_window(globals());
    w.on_input();
    let key = InputEvent::KeyDown { key_char: Some(String::from("a")) };
    // the input callback swallowed the event
    let acts = w.handle_input(key.clone(), false);
    assert!(acts.is_empty());
    // propagated, but no handler attached
    let acts = w.handle_input(key.clone(), true);
    assert!(acts.is_empty());
    w.set_input_handler();
    let acts = w.handle_input(key, true);
    assert_eq!(
        acts,
        vec![Action::ReplaceTextInRange { range: None, text: String::from("a") }]
    );
    // a key without a resolved character forwards nothing
    let acts = w.handle_input(InputEvent::KeyDown { key_char: None }, true);
    assert!(acts.is_empty());
}

#[test]
fn ime_operations_reach_attached_handler_only() {
    let mut w = new_window(globals());
    let acts = w.handle_ime(ImeInput::InsertText(String::from("x")), None);
    assert!(acts.is_empty());
    w.set_input_handler();
    let acts = w.handle_ime(ImeInput::InsertText(String::from("x")), None);
    assert_eq!(
        acts,
        vec![Action::ReplaceTextInRange { range: None, text: String::from("x") }]
    );
    let acts = w.handle_ime(ImeInput::SetMarkedText(String::from("y")), None);
    assert_eq!(acts, vec![Action::ReplaceAndMarkTextInRange { text: String::from("y") }]);
    let acts = w.handle_ime(ImeInput::UnmarkText, None);
    assert_eq!(acts, vec![Action::UnmarkText]);
    let acts = w.handle_ime(ImeInput::DeleteText, Some((2, 5)));
    assert_eq!(acts, vec![Action::DeleteTextInRange { start: 2, end: 5 }]);
    let acts = w.handle_ime(ImeInput::DeleteText, None);
    assert!(acts.is_empty());
    assert!(w.take_input_handler());
    let acts = w.handle_ime(ImeInput::UnmarkText, None);
    assert!(acts.is_empty());
}

#[test]
fn ime_caret_range_resolves_direction() {
    assert_eq!(ime_caret_range(false, 2, 7), (7, 7));
    assert_eq!(ime_caret_range(true, 2, 7), (2, 2));
}

#[test]
fn focus_and_hover_callbacks() {
    let mut w = new_window(globals());
    let acts = w.set_focused(true);
    assert!(acts.is_empty());
    assert!(w.is_active());
    w.on_active_status_change();
    let acts = w.set_focused(false);
    assert_eq!(acts, vec![Action::InvokeActiveStatusChange { active: false }]);
    assert!(!w.is_active());
    let acts = w.set_hovered(true);
    assert!(acts.is_empty());
    assert!(w.is_hovered());
    w.on_hover_status_change();
    let acts = w.set_hovered(false);
    assert_eq!(acts, vec![Action::InvokeHoverStatusChange { hovered: false }]);
    assert!(!w.is_hovered());
}

#[test]
fn appearance_change_fires_callback() {
    let mut w = new_window(globals());
    w.on_appearance_changed();
    let acts = w.set_appearance(WindowAppearance::Dark);
    assert_eq!(acts, vec![Action::InvokeAppearanceChanged]);
    assert_eq!(w.appearance(), WindowAppearance::Dark);
}

#[test]
fn toplevel_commands_on_normal_window() {
    let mut w = new_window(globals());
    assert_eq!(
        w.set_title(String::from("hello")),
        Some(Action::SetTitle { title: String::from("hello") })
    );
    assert_eq!(w.minimize(), Some(Action::SetMinimized));
    assert_eq!(w.zoom(), Some(Action::SetMaximized));
    w.state.maximized = true;
    assert_eq!(w.zoom(), Some(Action::UnsetMaximized));
    assert_eq!(w.toggle_fullscreen(), Some(Action::SetFullscreen));
    w.state.fullscreen = true;
    assert_eq!(w.toggle_fullscreen(), Some(Action::UnsetFullscreen));
    assert_eq!(
        w.show_window_menu(Point { x: 10, y: 20 }),
        Some(Action::ShowWindowMenu { position: Point { x: 10, y: 20 } })
    );
    assert_eq!(w.start_window_move(), Some(Action::StartMove));
    assert_eq!(
        w.start_window_resize(ResizeEdge::BottomRight),
        Some(Action::StartResize { edge: ResizeEdge::BottomRight })
    );
}

#[test]
fn toplevel_commands_skipped_on_layer_window() {
    let mut w = new_layer_window(globals());
    assert_eq!(w.set_title(String::from("hello")), None);
    assert_eq!(w.set_app_id(String::from("app")), None);
    assert_eq!(w.minimize(), None);
    assert_eq!(w.zoom(), None);
    assert_eq!(w.toggle_fullscreen(), None);
    assert_eq!(w.start_window_move(), None);
}

#[test]
fn activation_needs_protocol_and_app_id() {
    let mut w = new_window(globals());
    assert_eq!(w.activate(), None);
    let act = w.set_app_id(String::from("org.example.app"));
    assert_eq!(act, Some(Action::SetAppId { app_id: String::from("org.example.app") }));
    assert_eq!(
        w.activate(),
        Some(Action::RequestActivation { app_id: String::from("org.example.app") })
    );
    let mut g = globals();
    g.activation = false;
    let mut w = new_window(g);
    w.set_app_id(String::from("org.example.app"));
    assert_eq!(w.activate(), None);
}

#[test]
fn request_decorations_sends_mode_and_reconciles() {
    let mut w = new_window(globals());
    let acts = w.request_decorations(WindowDecorations::Server);
    assert_eq!(acts[0], Action::SetDecorationMode { mode: WindowDecorations::Server });
    assert_eq!(acts[1], Action::UpdateTransparency { transparent: false });
    // without a decoration object the mode is latched but nothing goes out
    let mut g = globals();
    g.decoration_manager = false;
    let mut w = new_window(g);
    let acts = w.request_decorations(WindowDecorations::Server);
    assert!(acts.is_empty());
    assert_eq!(w.state.decorations, WindowDecorations::Server);
}

#[test]
fn client_inset_reconciles_once_per_value() {
    let mut w = new_window(globals());
    let acts = w.set_client_inset(5);
    assert!(!acts.is_empty());
    let acts = w.set_client_inset(5);
    assert!(acts.is_empty());
    let acts = w.set_client_inset(6);
    assert!(!acts.is_empty());
}

#[test]
fn completed_frame_commits() {
    let w = new_window(globals());
    assert_eq!(w.completed_frame(), Action::CommitSurface);
}

#[test]
fn teardown_destroys_in_order() {
    let mut w = new_window(globals());
    w.on_close();
    w.set_background_appearance(WindowBackgroundAppearance::Blurred);
    let acts = w.teardown();
    assert_eq!(
        acts,
        vec![
            Action::DestroyRenderer,
            Action::ReleaseBlur,
            Action::DestroyViewport,
            Action::DestroyWlSurface,
            Action::DestroyXdgSurface,
            Action::DestroyToplevel,
            Action::DestroyDecoration,
            Action::InvokeCloseCallback,
            Action::DropWindowFromClient,
        ]
    );
    assert!(!w.state.blur);
}

#[test]
fn teardown_of_plain_layer_window() {
    let mut g = globals();
    g.viewporter = false;
    g.blur_manager = false;
    let mut w = new_layer_window(g);
    let acts = w.teardown();
    assert_eq!(
        acts,
        vec![
            Action::DestroyRenderer,
            Action::DestroyWlSurface,
            Action::DestroyLayerSurface,
            Action::DropWindowFromClient,
        ]
    );
}

#[test]
fn inner_window_bounds_excludes_inset() {
    let mut w = new_window(globals());
    w.set_client_inset(5);
    match w.inner_window_bounds() {
        wayland_window::state::WindowBounds::Windowed(b) => {
            assert_eq!(b.origin, Point { x: 5, y: 5 });
            assert_eq!(b.size, Size { width: 390, height: 290 });
        }
        other => panic!("expected windowed bounds, got {:?}", other),
    }
}
