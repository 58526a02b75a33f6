//! The fullscreen heuristic: the user counts as busy exactly when the
//! foreground window is a real application whose rectangle covers its
//! monitor's work area edge to edge.

use vstd::prelude::*;

verus! {

/// A rectangle in screen coordinates, by its four edges.
#[derive(Clone, Copy, Debug, PartialEq, Eq, Structural)]
pub struct Rect {
    pub left: i32,
    pub top: i32,
    pub right: i32,
    pub bottom: i32,
}

/// What a query of the foreground window's identity found.
#[derive(Clone, Copy, Debug, PartialEq, Eq, Structural)]
pub struct ForegroundWindow {
    /// The handle named an existing window.
    pub valid: bool,
    /// The window is the desktop itself.
    pub is_desktop: bool,
    /// The window is the shell (the taskbar and its kin).
    pub is_shell: bool,
}

/// Everything the platform could find out about the foreground window.
/// A platform without a native query reports `Unsupported`; on one with a
/// query, `None` in a rectangle field records that the query failed.
#[derive(Clone, Copy, Debug, PartialEq, Eq, Structural)]
pub enum FullscreenQuery {
    Unsupported,
    Native { window: ForegroundWindow, window_rect: Option<Rect>, work_area: Option<Rect> },
}

/// Two rectangles agree on all four edges, bit for bit.
pub open spec fn edges_equal(a: Rect, b: Rect) -> bool {
    &&& a.left == b.left
    &&& a.top == b.top
    &&& a.right == b.right
    &&& a.bottom == b.bottom
}

/// When a query outcome counts as "a fullscreen application has the
/// foreground": the window exists, is neither the desktop nor the shell,
/// both rectangle queries succeeded, and the window's rectangle matches the
/// monitor's work area exactly. Every failure degrades to `false`.
pub open spec fn is_fullscreen(q: FullscreenQuery) -> bool {
    match q {
        FullscreenQuery::Unsupported => false,
        FullscreenQuery::Native { window, window_rect, work_area } => {
            &&& window.valid
            &&& !window.is_desktop
            &&& !window.is_shell
            &&& window_rect is Some
            &&& work_area is Some
            &&& edges_equal(window_rect->Some_0, work_area->Some_0)
        },
    }
}

/// Decides whether the foreground window is fullscreen from what the
/// platform's queries found. No failure is fatal: an invalid handle, the
/// desktop, the shell, a failed rectangle query and a platform without a
/// native query all yield `false`.
pub fn check_fullscreen(q: &FullscreenQuery) -> (busy: bool)
    ensures
        busy == is_fullscreen(*q),
{
    match q {
        FullscreenQuery::Unsupported => false,
        FullscreenQuery::Native { window, window_rect, work_area } => {
            if !window.valid || window.is_desktop || window.is_shell {
                return false;
            }
            let wr: Rect = match window_rect {
                Some(r) => *r,
                None => {
                    return false;
                },
            };
            let wa: Rect = match work_area {
                Some(r) => *r,
                None => {
                    return false;
                },
            };
            wr.left == wa.left && wr.top == wa.top && wr.right == wa.right && wr.bottom
                == wa.bottom
        },
    }
}

/// The desktop window and the shell window are never fullscreen, whatever
/// their geometry.
pub proof fn lemma_desktop_and_shell_never_fullscreen(
    window: ForegroundWindow,
    window_rect: Option<Rect>,
    work_area: Option<Rect>,
)
    requires
        window.is_desktop || window.is_shell,
    ensures
        !is_fullscreen(
            FullscreenQuery::Native { window, window_rect, work_area },
        ),
{
}

/// A window that misses the work area on any edge, by as little as one
/// pixel, is not fullscreen.
pub proof fn lemma_inexact_match_not_fullscreen(
    window: ForegroundWindow,
    window_rect: Rect,
    work_area: Rect,
)
    requires
        !edges_equal(window_rect, work_area),
    ensures
        !is_fullscreen(
            FullscreenQuery::Native {
                window,
                window_rect: Some(window_rect),
                work_area: Some(work_area),
            },
        ),
{
}

} // verus!
