use wayland_window::configure::{
    decode_toplevel_configure, decode_wm_capabilities, extract_states,
};
use wayland_window::geometry::{
    compute_outer_size, inset_by_tiling, inset_window_geometry, Bounds, Point, Size, Tiling,
};
use wayland_window::layer_shell::{Anchor, KeyboardInteractivity, Layer, LayerShellSettings};
use wayland_window::state::ResizeEdge;

fn untiled() -> Tiling {
    Tiling { top: false, bottom: false, left: false, right: false }
}

#[test]
fn outer_size_without_inset_is_identity() {
    let size = Some(Size { width: 300, height: 200 });
    assert_eq!(compute_outer_size(None, size, untiled()), size);
    let tiled = Tiling { top: true, bottom: true, left: true, right: true };
    assert_eq!(compute_outer_size(None, size, tiled), size);
    assert_eq!(compute_outer_size(None, None, untiled()), None);
}

#[test]
fn outer_size_adds_inset_on_untiled_edges() {
    let size = Some(Size { width: 100, height: 100 });
    assert_eq!(
        compute_outer_size(Some(5), size, untiled()),
        Some(Size { width: 110, height: 110 })
    );
    let half = Tiling { top: true, bottom: false, left: true, right: false };
    assert_eq!(
        compute_outer_size(Some(5), size, half),
        Some(Size { width: 105, height: 105 })
    );
    assert_eq!(compute_outer_size(Some(5), None, untiled()), None);
}

#[test]
fn inset_by_tiling_moves_origin_and_shrinks() {
    let bounds = Bounds { origin: Point { x: 0, y: 0 }, size: Size { width: 100, height: 100 } };
    let r = inset_by_tiling(bounds, 10, untiled());
    assert_eq!(r.origin, Point { x: 10, y: 10 });
    assert_eq!(r.size, Size { width: 80, height: 80 });

    let tiled_left = Tiling { top: false, bottom: false, left: true, right: false };
    let r = inset_by_tiling(bounds, 10, tiled_left);
    assert_eq!(r.origin, Point { x: 0, y: 10 });
    assert_eq!(r.size, Size { width: 90, height: 80 });
}

#[test]
fn window_geometry_clamps_to_one() {
    let bounds = Bounds { origin: Point { x: 7, y: 9 }, size: Size { width: 5, height: 5 } };
    let r = inset_window_geometry(bounds, Some(10), untiled());
    assert_eq!(r.origin, Point { x: 10, y: 10 });
    assert_eq!(r.size, Size { width: 1, height: 1 });
}

#[test]
fn window_geometry_without_inset_keeps_size() {
    let bounds = Bounds { origin: Point { x: 7, y: 9 }, size: Size { width: 40, height: 30 } };
    let r = inset_window_geometry(bounds, None, untiled());
    assert_eq!(r.origin, Point { x: 0, y: 0 });
    assert_eq!(r.size, Size { width: 40, height: 30 });
}

#[test]
fn inset_all_shrinks_every_side() {
    let bounds = Bounds { origin: Point { x: 1, y: 2 }, size: Size { width: 50, height: 60 } };
    let r = bounds.inset_all(4);
    assert_eq!(r.origin, Point { x: 5, y: 6 });
    assert_eq!(r.size, Size { width: 42, height: 52 });
}

#[test]
fn extract_states_reads_whole_words() {
    let bytes = [1u8, 0, 0, 0, 2, 0, 0, 0];
    assert_eq!(extract_states(&bytes), vec![1, 2]);
    let empty: [u8; 0] = [];
    assert_eq!(extract_states(&empty), Vec::<u32>::new());
    let partial = [1u8, 0, 0];
    assert_eq!(extract_states(&partial), Vec::<u32>::new());
    let mixed = [5u8, 0, 0, 0, 9, 9];
    assert_eq!(extract_states(&mixed), vec![5]);
    let big = [0u8, 0, 0, 1];
    assert_eq!(extract_states(&big), vec![0x0100_0000]);
}

#[test]
fn decode_configure_zero_size_means_none() {
    let c = decode_toplevel_configure(0, 200, &[]);
    assert_eq!(c.size, None);
    let c = decode_toplevel_configure(300, 0, &[]);
    assert_eq!(c.size, None);
    let c = decode_toplevel_configure(300, 200, &[]);
    assert_eq!(c.size, Some(Size { width: 300, height: 200 }));
}

#[test]
fn decode_configure_maximized_forces_all_tiling() {
    // states: maximized (1) and tiled-left (5); maximize wins over edges
    let bytes = [1u8, 0, 0, 0, 5, 0, 0, 0];
    let c = decode_toplevel_configure(1920, 1080, &bytes);
    assert!(c.maximized);
    assert!(!c.fullscreen);
    assert_eq!(c.tiling, Tiling { top: true, bottom: true, left: true, right: true });
}

#[test]
fn decode_configure_fullscreen_forces_all_tiling() {
    let bytes = [2u8, 0, 0, 0];
    let c = decode_toplevel_configure(800, 600, &bytes);
    assert!(c.fullscreen);
    assert_eq!(c.tiling, Tiling { top: true, bottom: true, left: true, right: true });
}

#[test]
fn decode_configure_reports_individual_edges() {
    // tiled-left (5) and tiled-top (7)
    let bytes = [5u8, 0, 0, 0, 7, 0, 0, 0];
    let c = decode_toplevel_configure(640, 480, &bytes);
    assert!(!c.maximized && !c.fullscreen);
    assert_eq!(c.tiling, Tiling { top: true, bottom: false, left: true, right: false });
}

#[test]
fn decode_capabilities_sets_only_advertised() {
    // maximize (2) and minimize (4)
    let bytes = [2u8, 0, 0, 0, 4, 0, 0, 0];
    let wc = decode_wm_capabilities(&bytes);
    assert!(wc.maximize && wc.minimize);
    assert!(!wc.fullscreen && !wc.window_menu);
}

#[test]
fn layer_shell_settings_default_values() {
    let s = LayerShellSettings::default();
    assert_eq!(s.layer, Layer::Top);
    assert_eq!(s.anchor, Anchor { top: false, bottom: false, left: true, right: true });
    assert_eq!(s.exclusive_zone, None);
    assert_eq!(s.margin, None);
    assert_eq!(s.keyboard_interactivity, KeyboardInteractivity::Exclusive);
    assert!(s.pointer_interactivity);
    assert_eq!(s.namespace, String::new());
}

#[test]
fn wire_values_match_protocol() {
    assert_eq!(Layer::Background.wire_value(), 0);
    assert_eq!(Layer::Bottom.wire_value(), 1);
    assert_eq!(Layer::Top.wire_value(), 2);
    assert_eq!(Layer::Overlay.wire_value(), 3);
    assert_eq!(KeyboardInteractivity::NoFocus.wire_value(), 0);
    assert_eq!(KeyboardInteractivity::Exclusive.wire_value(), 1);
    assert_eq!(KeyboardInteractivity::OnDemand.wire_value(), 2);
    assert_eq!(ResizeEdge::Top.wire_value(), 1);
    assert_eq!(ResizeEdge::Bottom.wire_value(), 2);
    assert_eq!(ResizeEdge::Left.wire_value(), 4);
    assert_eq!(ResizeEdge::TopLeft.wire_value(), 5);
    assert_eq!(ResizeEdge::BottomLeft.wire_value(), 6);
    assert_eq!(ResizeEdge::Right.wire_value(), 8);
    assert_eq!(ResizeEdge::TopRight.wire_value(), 9);
    assert_eq!(ResizeEdge::BottomRight.wire_value(), 10);
}

#[test]
fn anchor_bits_match_wire_values() {
    assert_eq!(Anchor { top: true, bottom: false, left: false, right: false }.bits(), 1);
    assert_eq!(Anchor { top: false, bottom: true, left: false, right: false }.bits(), 2);
    assert_eq!(Anchor { top: false, bottom: false, left: true, right: false }.bits(), 4);
    assert_eq!(Anchor { top: false, bottom: false, left: false, right: true }.bits(), 8);
    assert_eq!(Anchor { top: true, bottom: true, left: true, right: true }.bits(), 15);
}
