use wayland_window::actions::Action;
use wayland_window::controller::{
    LayerSurfaceEvent, SurfaceEvent, ToplevelEvent, Window, XdgSurfaceEvent,
};
use wayland_window::geometry::{Bounds, Point, Size};
use wayland_window::layer_shell::LayerShellSettings;
use wayland_window::outputs::Output;
use wayland_window::state::{Globals, WindowAppearance, WindowKind, WindowParams};

fn globals() -> Globals {
    Globals {
        decoration_manager: true,
        fractional_scale_manager: true,
        viewporter: false,
        blur_manager: false,
        activation: false,
    }
}

fn new_window(globals: Globals) -> Window {
    let params = WindowParams {
        bounds: Bounds { origin: Point { x: 0, y: 0 }, size: Size { width: 400, height: 300 } },
        kind: WindowKind::Normal,
        window_min_size: None,
    };
    let (window, _) = Window::new(params, globals, WindowAppearance::Light);
    window
}

fn configure(window: &mut Window, width: i32, height: i32, states: &[u8]) {
    let (handled, acts) = window.handle_toplevel_event(ToplevelEvent::Configure {
        width,
        height,
        states: states.to_vec(),
    });
    assert!(!handled);
    assert!(acts.is_empty());
}

fn ack(window: &mut Window, serial: u32) -> Vec<Action> {
    window.handle_xdg_surface_event(XdgSurfaceEvent::Configure { serial })
}

fn frame_requests(acts: &[Action]) -> usize {
    acts.iter().filter(|a| **a == Action::RequestFrame).count()
}

#[test]
fn ack_with_suggested_size_adopts_it() {
    let mut w = new_window(globals());
    configure(&mut w, 300, 200, &[]);
    let acts = ack(&mut w, 1);
    assert_eq!(w.content_size(), Size { width: 300, height: 200 });
    match w.window_bounds() {
        wayland_window::state::WindowBounds::Windowed(b) => {
            assert_eq!(b.size, Size { width: 300, height: 200 });
        }
        other => panic!("expected windowed bounds, got {:?}", other),
    }
    assert!(acts.contains(&Action::AckConfigure { serial: 1 }));
}

#[test]
fn unmaximize_restores_premaximize_bounds() {
    let mut w = new_window(globals());
    // a windowed configure establishes the restore bounds
    configure(&mut w, 500, 400, &[]);
    ack(&mut w, 1);
    // maximize: authoritative bounds follow, restore bounds do not
    configure(&mut w, 1920, 1080, &[1, 0, 0, 0]);
    ack(&mut w, 2);
    assert!(w.is_maximized());
    assert_eq!(w.content_size(), Size { width: 1920, height: 1080 });
    match w.window_bounds() {
        wayland_window::state::WindowBounds::Maximized(b) => {
            assert_eq!(b.size, Size { width: 500, height: 400 });
        }
        other => panic!("expected maximized bounds, got {:?}", other),
    }
    // un-maximize with an absurd suggestion: the saved bounds win
    configure(&mut w, 800, 10, &[]);
    ack(&mut w, 3);
    assert!(!w.is_maximized());
    assert_eq!(w.content_size(), Size { width: 500, height: 400 });
    match w.window_bounds() {
        wayland_window::state::WindowBounds::Windowed(b) => {
            assert_eq!(b.size, Size { width: 500, height: 400 });
        }
        other => panic!("expected windowed bounds, got {:?}", other),
    }
}

#[test]
fn fullscreen_keeps_restore_bounds_and_forces_tiling() {
    let mut w = new_window(globals());
    configure(&mut w, 500, 400, &[]);
    ack(&mut w, 1);
    configure(&mut w, 2560, 1440, &[2, 0, 0, 0]);
    ack(&mut w, 2);
    assert!(w.is_fullscreen());
    match w.window_bounds() {
        wayland_window::state::WindowBounds::Fullscreen(b) => {
            assert_eq!(b.size, Size { width: 500, height: 400 });
        }
        other => panic!("expected fullscreen bounds, got {:?}", other),
    }
    assert_eq!(w.state.tiling.top && w.state.tiling.bottom, true);
    assert_eq!(w.state.tiling.left && w.state.tiling.right, true);
}

#[test]
fn first_ack_requests_exactly_one_frame() {
    let mut w = new_window(globals());
    configure(&mut w, 300, 200, &[]);
    let first = ack(&mut w, 1);
    assert_eq!(frame_requests(&first), 1);
    assert!(w.state.acknowledged_first_configure);
    configure(&mut w, 320, 220, &[]);
    let second = ack(&mut w, 2);
    assert_eq!(frame_requests(&second), 0);
    let third = ack(&mut w, 3);
    assert_eq!(frame_requests(&third), 0);
}

#[test]
fn ack_with_inset_adds_it_back_and_declares_geometry() {
    let mut w = new_window(globals());
    w.set_client_inset(5);
    configure(&mut w, 300, 200, &[]);
    let acts = ack(&mut w, 7);
    // outer size: inset added back on both edges of each axis
    assert_eq!(w.content_size(), Size { width: 310, height: 210 });
    // declared geometry shrinks back inward
    let geometry = Bounds {
        origin: Point { x: 5, y: 5 },
        size: Size { width: 300, height: 200 },
    };
    assert!(acts.contains(&Action::SetWindowGeometry { geometry }));
}

#[test]
fn capabilities_commit_on_ack() {
    let mut w = new_window(globals());
    w.on_appearance_changed();
    // window-menu (1) and fullscreen (3)
    let (handled, acts) = w.handle_toplevel_event(ToplevelEvent::WmCapabilities {
        capabilities: vec![1, 0, 0, 0, 3, 0, 0, 0],
    });
    assert!(!handled);
    assert!(acts.is_empty());
    // nothing committed yet
    assert!(w.window_controls().maximize);
    let acts = ack(&mut w, 4);
    assert_eq!(acts[0], Action::InvokeAppearanceChanged);
    let wc = w.window_controls();
    assert!(wc.window_menu && wc.fullscreen);
    assert!(!wc.maximize && !wc.minimize);
}

#[test]
fn second_configure_before_ack_overwrites_pending() {
    let mut w = new_window(globals());
    configure(&mut w, 300, 200, &[]);
    configure(&mut w, 640, 480, &[]);
    ack(&mut w, 1);
    assert_eq!(w.content_size(), Size { width: 640, height: 480 });
}

#[test]
fn close_request_with_predicate_asks_first() {
    let mut w = new_window(globals());
    w.on_should_close();
    w.on_close();
    let (closes, acts) = w.handle_toplevel_event(ToplevelEvent::Close);
    assert!(!closes);
    assert_eq!(acts, vec![Action::InvokeShouldClose]);
    // denied: nothing happens
    let (closes, acts) = w.resolve_close_request(false);
    assert!(!closes);
    assert!(acts.is_empty());
    // allowed: the close callback fires once, ever
    let (closes, acts) = w.resolve_close_request(true);
    assert!(closes);
    assert_eq!(acts, vec![Action::InvokeCloseCallback]);
    let (_, acts) = w.resolve_close_request(true);
    assert!(acts.is_empty());
}

#[test]
fn close_request_without_predicate_allows_close() {
    let mut w = new_window(globals());
    let (closes, acts) = w.handle_toplevel_event(ToplevelEvent::Close);
    assert!(closes);
    assert!(acts.is_empty());
}

#[test]
fn layer_configure_acks_and_requests_first_frame() {
    let params = WindowParams {
        bounds: Bounds { origin: Point { x: 0, y: 0 }, size: Size { width: 64, height: 32 } },
        kind: WindowKind::LayerShell(LayerShellSettings::default()),
        window_min_size: None,
    };
    let (mut w, _) = Window::new(params, globals(), WindowAppearance::Dark);
    let acts = w.handle_layer_surface(LayerSurfaceEvent::Configure {
        serial: 9,
        width: 64,
        height: 32,
    });
    assert_eq!(
        acts,
        vec![
            Action::LayerAckConfigure { serial: 9 },
            Action::LayerSetSize { width: 64, height: 32 },
            Action::RequestFrame,
        ]
    );
    let acts = w.handle_layer_surface(LayerSurfaceEvent::Configure {
        serial: 10,
        width: 64,
        height: 32,
    });
    assert_eq!(frame_requests(&acts), 0);
}

#[test]
fn xdg_event_on_layer_window_is_skipped() {
    let params = WindowParams {
        bounds: Bounds { origin: Point { x: 0, y: 0 }, size: Size { width: 64, height: 32 } },
        kind: WindowKind::LayerShell(LayerShellSettings::default()),
        window_min_size: None,
    };
    let (mut w, _) = Window::new(params, globals(), WindowAppearance::Dark);
    let acts = w.handle_xdg_surface_event(XdgSurfaceEvent::Configure { serial: 1 });
    assert!(acts.is_empty());
    assert!(!w.state.acknowledged_first_configure);
}

#[test]
fn layer_event_on_normal_window_is_skipped() {
    let mut w = new_window(globals());
    let acts = w.handle_layer_surface(LayerSurfaceEvent::Configure {
        serial: 1,
        width: 10,
        height: 10,
    });
    assert!(acts.is_empty());
}

#[test]
fn frame_requests_callback_only_when_registered() {
    let mut w = new_window(globals());
    assert_eq!(w.frame(), vec![Action::RequestFrame]);
    w.on_request_frame();
    assert_eq!(w.frame(), vec![Action::RequestFrame, Action::InvokeRequestFrame]);
}

#[test]
fn ack_without_pending_keeps_bounds() {
    let mut w = new_window(globals());
    let acts = ack(&mut w, 5);
    assert_eq!(w.content_size(), Size { width: 400, height: 300 });
    assert!(acts.contains(&Action::AckConfigure { serial: 5 }));
    assert!(w.state.acknowledged_first_configure);
}

#[test]
fn primary_output_scale_defaults_to_one() {
    let mut w = new_window(globals());
    assert_eq!(w.state.primary_output_scale(), 1);
    assert_eq!(w.display_output(), None);
}

#[test]
fn primary_output_scale_takes_maximum() {
    let mut w = new_window(globals());
    w.handle_surface_event(SurfaceEvent::Enter { id: 1, output: Output { scale: 2 } });
    w.handle_surface_event(SurfaceEvent::Enter { id: 2, output: Output { scale: 3 } });
    w.handle_surface_event(SurfaceEvent::Enter { id: 3, output: Output { scale: 3 } });
    assert_eq!(w.state.primary_output_scale(), 3);
    // ties keep the first found
    assert_eq!(w.display_output(), Some((2, Output { scale: 3 })));
    w.handle_surface_event(SurfaceEvent::Leave { id: 2 });
    assert_eq!(w.state.primary_output_scale(), 3);
    assert_eq!(w.display_output(), Some((3, Output { scale: 3 })));
}

#[test]
fn buffer_scale_applies_without_fractional_protocol() {
    let mut g = globals();
    g.fractional_scale_manager = false;
    let mut w = new_window(g);
    let acts = w.handle_surface_event(SurfaceEvent::Enter { id: 1, output: Output { scale: 2 } });
    assert_eq!(acts[0], Action::SetBufferScale { scale: 2 });
    assert_eq!(w.scale_factor(), 240);
    // 400 * 240 / 120 = 800, 300 * 240 / 120 = 600
    assert!(acts.contains(&Action::UpdateDrawableSize { width: 800, height: 600 }));
    let acts = w.handle_surface_event(SurfaceEvent::Leave { id: 1 });
    assert_eq!(acts[0], Action::SetBufferScale { scale: 1 });
    assert_eq!(w.scale_factor(), 120);
}

#[test]
fn buffer_scale_suppressed_with_fractional_protocol() {
    let mut w = new_window(globals());
    let acts = w.handle_surface_event(SurfaceEvent::Enter { id: 1, output: Output { scale: 2 } });
    assert!(acts.is_empty());
    assert_eq!(w.scale_factor(), 120);
    let acts = w.handle_surface_event(SurfaceEvent::PreferredBufferScale { factor: 2 });
    assert!(acts.is_empty());
    assert_eq!(w.scale_factor(), 120);
}

#[test]
fn preferred_buffer_scale_fallback() {
    let mut g = globals();
    g.fractional_scale_manager = false;
    let mut w = new_window(g);
    let acts = w.handle_surface_event(SurfaceEvent::PreferredBufferScale { factor: 2 });
    assert_eq!(acts[0], Action::SetBufferScale { scale: 2 });
    assert_eq!(w.scale_factor(), 240);
}
