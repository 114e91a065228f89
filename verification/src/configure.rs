//! Decoding of the toplevel configure payload.
//!
//! A toplevel configure event carries a suggested size and an array of state
//! values, encoded on the wire as consecutive 32-bit words.  This module
//! turns that array back into words, reads the maximize/fullscreen/tiling
//! flags out of them, and stages the result as the pending configure payload
//! that only the surface-configure acknowledgment commits.

use vstd::prelude::*;

use crate::geometry::{Size, Tiling};

verus! {

/// Wire value of the "maximized" toplevel state.
pub const STATE_MAXIMIZED: u32 = 1;

/// Wire value of the "fullscreen" toplevel state.
pub const STATE_FULLSCREEN: u32 = 2;

/// Wire value of the "tiled on the left edge" toplevel state.
pub const STATE_TILED_LEFT: u32 = 5;

/// Wire value of the "tiled on the right edge" toplevel state.
pub const STATE_TILED_RIGHT: u32 = 6;

/// Wire value of the "tiled on the top edge" toplevel state.
pub const STATE_TILED_TOP: u32 = 7;

/// Wire value of the "tiled on the bottom edge" toplevel state.
pub const STATE_TILED_BOTTOM: u32 = 8;

/// Wire value of the "window menu" compositor capability.
pub const CAPABILITY_WINDOW_MENU: u32 = 1;

/// Wire value of the "maximize" compositor capability.
pub const CAPABILITY_MAXIMIZE: u32 = 2;

/// Wire value of the "fullscreen" compositor capability.
pub const CAPABILITY_FULLSCREEN: u32 = 3;

/// Wire value of the "minimize" compositor capability.
pub const CAPABILITY_MINIMIZE: u32 = 4;

/// A configure payload between receipt and acknowledgment.  Only the
/// surface-configure acknowledgment commits it to the authoritative state;
/// a newer payload overwrites an unacknowledged one.
#[derive(Clone, Copy, Debug, PartialEq, Eq, Structural)]
pub struct InProgressConfigure {
    /// The compositor-suggested content size; `None` when no size was
    /// suggested (a zero width or height on the wire).
    pub size: Option<Size>,
    pub fullscreen: bool,
    pub maximized: bool,
    pub tiling: Tiling,
}

/// Which interactive controls the compositor advertises for this window.
#[derive(Clone, Copy, Debug, PartialEq, Eq, Structural)]
pub struct WindowControls {
    pub fullscreen: bool,
    pub maximize: bool,
    pub minimize: bool,
    pub window_menu: bool,
}

impl WindowControls {
    /// Before any advertisement arrives, every control is assumed available.
    pub fn all() -> (r: WindowControls)
        ensures
            r == (WindowControls { fullscreen: true, maximize: true, minimize: true, window_menu: true }),
    {
        WindowControls { fullscreen: true, maximize: true, minimize: true, window_menu: true }
    }
}

/// The 32-bit word at byte offset `i`, least significant byte first.
pub open spec fn word_at(bytes: Seq<u8>, i: int) -> u32 {
    (bytes[i] + bytes[i + 1] * 0x100 + bytes[i + 2] * 0x1_0000 + bytes[i + 3] * 0x100_0000) as u32
}

/// Every complete 32-bit word of the array; a trailing partial word is
/// dropped.
pub open spec fn spec_extract_states(bytes: Seq<u8>) -> Seq<u32> {
    Seq::new((bytes.len() / 4) as nat, |k: int| word_at(bytes, 4 * k))
}

/// Splits a wire-format state array into its 32-bit words, least significant
/// byte first — the byte order of the wire on every platform this protocol
/// serves.  A trailing partial word is dropped.
pub fn extract_states(states: &[u8]) -> (r: Vec<u32>)
    ensures
        r@ == spec_extract_states(states@),
{
    let n = states.len() / 4;
    let mut r: Vec<u32> = Vec::new();
    let mut k: usize = 0;
    while k < n
        invariant
            states@.len() <= usize::MAX,
            n == states@.len() / 4,
            k <= n,
            r@ == spec_extract_states(states@).take(k as int),
        decreases n - k,
    {
        proof {
            assert(4 * (k as int) + 3 < states@.len()) by {
                assert(4 * (states@.len() as int / 4) <= states@.len() as int) by (nonlinear_arith);
            };
        }
        let b0 = states[4 * k] as u32;
        let b1 = states[4 * k + 1] as u32;
        let b2 = states[4 * k + 2] as u32;
        let b3 = states[4 * k + 3] as u32;
        let word = b0 + b1 * 0x100 + b2 * 0x1_0000 + b3 * 0x100_0000;
        r.push(word);
        k = k + 1;
        proof {
            assert(r@ =~= spec_extract_states(states@).take(k as int));
        }
    }
    proof {
        assert(r@ =~= spec_extract_states(states@));
    }
    r
}

/// The tiling edges named by a decoded state array.
pub open spec fn spec_reported_tiling(words: Seq<u32>) -> Tiling {
    Tiling {
        top: words.contains(STATE_TILED_TOP),
        bottom: words.contains(STATE_TILED_BOTTOM),
        left: words.contains(STATE_TILED_LEFT),
        right: words.contains(STATE_TILED_RIGHT),
    }
}

/// The pending payload a toplevel configure event with this size hint and
/// state array stages: a zero dimension means "no size suggested", and
/// fullscreen or maximized forces every tiling edge regardless of the
/// individually reported ones.
pub open spec fn spec_pending_configure(width: i32, height: i32, words: Seq<u32>) -> InProgressConfigure {
    let fullscreen = words.contains(STATE_FULLSCREEN);
    let maximized = words.contains(STATE_MAXIMIZED);
    InProgressConfigure {
        size: if width == 0 || height == 0 {
            None
        } else {
            Some(Size { width, height })
        },
        fullscreen,
        maximized,
        tiling: if fullscreen || maximized {
            Tiling { top: true, bottom: true, left: true, right: true }
        } else {
            spec_reported_tiling(words)
        },
    }
}

/// Decodes a toplevel configure event into the payload to stage.
pub fn decode_toplevel_configure(width: i32, height: i32, states: &[u8]) -> (r: InProgressConfigure)
    ensures
        r == spec_pending_configure(width, height, spec_extract_states(states@)),
{
    let words = extract_states(states);
    let ghost ws = spec_extract_states(states@);

    let size = if width == 0 || height == 0 {
        None
    } else {
        Some(Size { width, height })
    };

    let mut tiling = Tiling::untiled();
    let mut fullscreen = false;
    let mut maximized = false;

    let mut k: usize = 0;
    while k < words.len()
        invariant
            words@ == ws,
            k <= ws.len(),
            maximized == ws.take(k as int).contains(STATE_MAXIMIZED),
            fullscreen == ws.take(k as int).contains(STATE_FULLSCREEN),
            tiling == spec_reported_tiling(ws.take(k as int)),
        decreases words@.len() - k,
    {
        let word = words[k];
        if word == STATE_MAXIMIZED {
            maximized = true;
        } else if word == STATE_FULLSCREEN {
            fullscreen = true;
        } else if word == STATE_TILED_TOP {
            tiling.top = true;
        } else if word == STATE_TILED_LEFT {
            tiling.left = true;
        } else if word == STATE_TILED_RIGHT {
            tiling.right = true;
        } else if word == STATE_TILED_BOTTOM {
            tiling.bottom = true;
        }
        proof {
            assert(ws.take(k + 1) =~= ws.take(k as int).push(ws[k as int]));
            vstd::seq_lib::lemma_seq_contains_after_push(ws.take(k as int), ws[k as int], STATE_MAXIMIZED);
            vstd::seq_lib::lemma_seq_contains_after_push(ws.take(k as int), ws[k as int], STATE_FULLSCREEN);
            vstd::seq_lib::lemma_seq_contains_after_push(ws.take(k as int), ws[k as int], STATE_TILED_TOP);
            vstd::seq_lib::lemma_seq_contains_after_push(ws.take(k as int), ws[k as int], STATE_TILED_BOTTOM);
            vstd::seq_lib::lemma_seq_contains_after_push(ws.take(k as int), ws[k as int], STATE_TILED_LEFT);
            vstd::seq_lib::lemma_seq_contains_after_push(ws.take(k as int), ws[k as int], STATE_TILED_RIGHT);
        }
        k = k + 1;
    }
    proof {
        assert(ws.take(ws.len() as int) =~= ws);
    }

    if fullscreen || maximized {
        tiling = Tiling::tiled();
    }

    InProgressConfigure { size, fullscreen, maximized, tiling }
}

/// The window controls named by a decoded capability array.
pub open spec fn spec_window_controls(words: Seq<u32>) -> WindowControls {
    WindowControls {
        fullscreen: words.contains(CAPABILITY_FULLSCREEN),
        maximize: words.contains(CAPABILITY_MAXIMIZE),
        minimize: words.contains(CAPABILITY_MINIMIZE),
        window_menu: words.contains(CAPABILITY_WINDOW_MENU),
    }
}

/// Decodes a capability advertisement into the controls it names.
pub fn decode_wm_capabilities(capabilities: &[u8]) -> (r: WindowControls)
    ensures
        r == spec_window_controls(spec_extract_states(capabilities@)),
{
    let words = extract_states(capabilities);
    let ghost ws = spec_extract_states(capabilities@);

    let mut controls = WindowControls {
        fullscreen: false,
        maximize: false,
        minimize: false,
        window_menu: false,
    };

    let mut k: usize = 0;
    while k < words.len()
        invariant
            words@ == ws,
            k <= ws.len(),
            controls == spec_window_controls(ws.take(k as int)),
        decreases words@.len() - k,
    {
        let word = words[k];
        if word == CAPABILITY_MAXIMIZE {
            controls.maximize = true;
        } else if word == CAPABILITY_MINIMIZE {
            controls.minimize = true;
        } else if word == CAPABILITY_FULLSCREEN {
            controls.fullscreen = true;
        } else if word == CAPABILITY_WINDOW_MENU {
            controls.window_menu = true;
        }
        proof {
            assert(ws.take(k + 1) =~= ws.take(k as int).push(ws[k as int]));
            vstd::seq_lib::lemma_seq_contains_after_push(ws.take(k as int), ws[k as int], CAPABILITY_MAXIMIZE);
            vstd::seq_lib::lemma_seq_contains_after_push(ws.take(k as int), ws[k as int], CAPABILITY_MINIMIZE);
            vstd::seq_lib::lemma_seq_contains_after_push(ws.take(k as int), ws[k as int], CAPABILITY_FULLSCREEN);
            vstd::seq_lib::lemma_seq_contains_after_push(ws.take(k as int), ws[k as int], CAPABILITY_WINDOW_MENU);
        }
        k = k + 1;
    }
    proof {
        assert(ws.take(ws.len() as int) =~= ws);
    }

    controls
}

/// Fullscreen or maximized forces all four tiling edges, regardless of the
/// individually reported ones.
pub proof fn lemma_fullscreen_or_maximized_forces_tiling(width: i32, height: i32, words: Seq<u32>)
    ensures
        ({
            let pending = spec_pending_configure(width, height, words);
            pending.fullscreen || pending.maximized ==> pending.tiling.all_tiled()
        }),
{
}

} // verus!
