use vstd::prelude::*;
use crate::updates::{BuildMode, updates_active, updates_enabled};
use crate::window::{WindowBounds, WindowCommand, restore_commands, restore_plan};

verus! {

/// What the application does once its plugins are registered.
#[derive(Debug, PartialEq, Eq)]
pub struct StartupPlan {
    /// Operations on the main window, in order.
    pub window: Vec<WindowCommand>,
    /// Whether the background update poller is started.
    pub start_poller: bool,
}

/// Plans startup from the build mode and the window geometry decoded from the
/// store, if any: the window is restored and revealed, and the update poller
/// runs in release builds only.
pub fn startup_plan(mode: BuildMode, stored: Option<WindowBounds>) -> (r: StartupPlan)
    ensures
        r.window@ == restore_commands(stored),
        r.start_poller == updates_enabled(mode),
{
    StartupPlan { window: restore_plan(stored), start_poller: updates_active(mode) }
}

} // verus!
