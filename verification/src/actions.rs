//! Outbound effects of the state machine.
//!
//! Event handlers and facade operations never perform I/O themselves: they
//! return a list of `Action`s which an unverified transport layer performs
//! in order.  Each variant is either a protocol request to the compositor,
//! a renderer operation, or the invocation of a registered callback.

use vstd::prelude::*;

use crate::geometry::{Bounds, Point, Size};
use crate::layer_shell::KeyboardInteractivity;
use crate::state::{ResizeEdge, WindowDecorations};

verus! {

/// One outbound effect, to be performed in list order.
#[derive(Clone, Debug, PartialEq, Eq)]
pub enum Action {
    /// Acknowledge the surface configure of the given serial.
    AckConfigure { serial: u32 },
    /// Declare the window geometry (the bounds minus client decoration).
    SetWindowGeometry { geometry: Bounds },
    /// Acknowledge the layer-surface configure of the given serial.
    LayerAckConfigure { serial: u32 },
    /// Echo the compositor-assigned layer-surface size.
    LayerSetSize { width: u32, height: u32 },
    /// Request a one-shot frame callback from the compositor.
    RequestFrame,
    /// Commit the pending surface state to the compositor.
    CommitSurface,
    /// Declare which region of the surface is fully opaque, or clear the
    /// declaration.
    SetOpaqueRegion { region: Option<Bounds> },
    /// Fall back to an integer buffer scale.
    SetBufferScale { scale: i32 },
    /// Deny the surface all pointer events.
    SetInputRegionEmpty,
    /// Tell the viewport the logical size to present at.
    SetViewportDestination { width: i32, height: i32 },
    /// Create a blur object for the surface.
    CreateBlur,
    /// Commit the blur object.
    CommitBlur,
    /// Withdraw blur from the surface.
    UnsetBlur,
    /// Release the blur object.
    ReleaseBlur,
    /// Declare the smallest size the window may take.
    SetMinSize { size: Size },
    /// Set the toplevel's title.
    SetTitle { title: String },
    /// Set the toplevel's application identifier.
    SetAppId { app_id: String },
    /// Ask the compositor to minimize the window.
    SetMinimized,
    /// Ask the compositor to maximize the window.
    SetMaximized,
    /// Ask the compositor to unmaximize the window.
    UnsetMaximized,
    /// Ask the compositor to make the window fullscreen.
    SetFullscreen,
    /// Ask the compositor to leave fullscreen.
    UnsetFullscreen,
    /// Open the compositor's window menu at the given position.
    ShowWindowMenu { position: Point },
    /// Start an interactive move.
    StartMove,
    /// Start an interactive resize from the given edge.
    StartResize { edge: ResizeEdge },
    /// Ask the compositor for the given decoration mode.
    SetDecorationMode { mode: WindowDecorations },
    /// Anchor the layer surface to the edges named by the wire bits.
    SetLayerAnchor { bits: u32 },
    /// Choose how the layer surface takes keyboard focus.
    SetLayerKeyboardInteractivity { mode: KeyboardInteractivity },
    /// Set the layer surface's margins from its anchored edges.
    SetLayerMargin { top: i32, right: i32, bottom: i32, left: i32 },
    /// Reserve an exclusive zone for the layer surface.
    SetLayerExclusiveZone { zone: i32 },
    /// Ask the compositor to activate this window, identified by app id.
    RequestActivation { app_id: String },
    /// Resize the renderer's drawable to this size in device pixels.
    UpdateDrawableSize { width: u64, height: u64 },
    /// Tell the renderer whether the window may have transparent pixels.
    UpdateTransparency { transparent: bool },
    /// Destroy the renderer.
    DestroyRenderer,
    /// Destroy the viewport object.
    DestroyViewport,
    /// Destroy the base surface object.
    DestroyWlSurface,
    /// Destroy the xdg surface role object.
    DestroyXdgSurface,
    /// Destroy the toplevel role object.
    DestroyToplevel,
    /// Destroy the decoration object.
    DestroyDecoration,
    /// Destroy the layer-surface role object.
    DestroyLayerSurface,
    /// Tell the owning client registry to forget this surface.
    DropWindowFromClient,
    /// Invoke the frame-request callback.
    InvokeRequestFrame,
    /// Invoke the appearance-changed callback.
    InvokeAppearanceChanged,
    /// Invoke the resize callback with the new logical size and scale (in
    /// 1/120 units).
    InvokeResize { size: Size, scale: u32 },
    /// Invoke the focus-change callback.
    InvokeActiveStatusChange { active: bool },
    /// Invoke the hover-change callback.
    InvokeHoverStatusChange { hovered: bool },
    /// Ask the should-close predicate whether the window may close, then
    /// hand its answer to `resolve_close_request`.
    InvokeShouldClose,
    /// Invoke the close callback; it is registered at most once.
    InvokeCloseCallback,
    /// Replace the text in the given marked range (or the selection, when
    /// none) with `text`.
    ReplaceTextInRange { range: Option<(usize, usize)>, text: String },
    /// Replace and mark the given text for IME composition.
    ReplaceAndMarkTextInRange { text: String },
    /// Replace the marked range `start..end` with empty text.
    DeleteTextInRange { start: usize, end: usize },
    /// Clear the IME marked-text state.
    UnmarkText,
}

} // verus!
