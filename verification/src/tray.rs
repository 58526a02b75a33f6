//! The tray loop's decisions. Each pass of the event loop reads the
//! checked state of the Pause menu item, forwards it to the control loop
//! when the item was just clicked, and repaints the icon only when the
//! state differs from the one last rendered — never on an unchanged state.

use vstd::prelude::*;

verus! {

/// The tray loop's only state: the pause value the icon was last rendered
/// for, kept to avoid redundant repaints.
#[derive(Clone, Copy, Debug, PartialEq, Eq, Structural)]
pub struct TrayState {
    pub last_rendered: bool,
}

/// What one pass of the tray loop decides to do: forward a pause value to
/// the control loop, repaint the icon, or neither.
#[derive(Clone, Debug)]
pub struct TrayActions {
    /// The pause value to send through the mailbox, if the Pause item was
    /// clicked this pass.
    pub forward: Option<bool>,
    /// The icon to apply, if the pause state changed since it was last
    /// rendered.
    pub repaint: Option<Vec<u8>>,
}

/// Whether a pass that observes `paused` repaints the icon.
pub open spec fn tray_repaints(t: TrayState, paused: bool) -> bool {
    paused != t.last_rendered
}

/// The tray state one pass leaves behind: the icon on show now reflects
/// `paused`, whether or not a repaint was needed for that.
pub open spec fn tray_step(t: TrayState, paused: bool) -> TrayState {
    (TrayState { last_rendered: paused })
}

impl TrayState {
    /// The tray's state right after the icon is first built, which renders
    /// the unpaused icon.
    pub fn new() -> (t: TrayState)
        ensures
            t.last_rendered == false,
    {
        TrayState { last_rendered: false }
    }

    /// One pass of the tray loop, given the Pause item's current checked
    /// state and whether a click on it is pending: forwards the current
    /// state exactly on a click, and repaints exactly on a change.
    pub fn on_tick(&mut self, paused: bool, toggle_clicked: bool) -> (out: TrayActions)
        ensures
            out.forward == (if toggle_clicked {
                Some(paused)
            } else {
                Option::<bool>::None
            }),
            out.repaint is Some <==> tray_repaints(*old(self), paused),
            out.repaint is Some ==> (out.repaint->Some_0)@ =~= Seq::new(
                crate::icon::ICON_BYTES as nat,
                |i: int| crate::icon::icon_byte(paused, i),
            ),
            *final(self) == tray_step(*old(self), paused),
    {
        let forward: Option<bool> = if toggle_clicked {
            Some(paused)
        } else {
            None
        };
        let repaint: Option<Vec<u8>> = if paused != self.last_rendered {
            Some(crate::icon::get_icon_image(paused))
        } else {
            None
        };
        self.last_rendered = paused;
        TrayActions { forward, repaint }
    }
}

/// Repainting is idempotent: once a pass has rendered a pause state, a
/// later pass that observes the same state repaints nothing.
pub proof fn lemma_same_state_never_repaints(t: TrayState, paused: bool)
    ensures
        !tray_repaints(tray_step(t, paused), paused),
{
}

} // verus!
