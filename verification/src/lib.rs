//! A verified model of a desktop window's compositor-facing state machine.
//!
//! The library owns the negotiation of surface geometry, decoration mode,
//! scale factor, and tiling/fullscreen/maximize state for one application
//! window backed by an xdg-shell or layer-shell surface.  Compositor events
//! arrive as plain values; every handler mutates the window state and returns
//! the list of outbound [`actions::Action`]s (protocol requests and callback
//! invocations) that an unverified transport layer performs in order.

pub mod actions;
pub mod configure;
pub mod controller;
pub mod facade;
pub mod geometry;
pub mod layer_shell;
pub mod outputs;
pub mod state;
