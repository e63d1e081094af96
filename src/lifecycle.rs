use vstd::prelude::*;
use crate::settings::{SystemSettings, effective_flag, settings_value, should_keep_running};

verus! {

/// What to do with a request to close the main window.
#[derive(PartialEq, Eq, Structural, Clone, Copy, Debug)]
pub enum CloseAction {
    /// Cancel the close and hide the window; the process keeps running.
    HideWindow,
    /// Let the window close as usual.
    AllowClose,
}

/// Decides a close request on the main window: hide it when the window exists
/// and the keep-running flag is set, else let it close.
pub fn on_close_requested(settings: Option<&SystemSettings>, window_found: bool) -> (r: CloseAction)
    ensures
        r == (if window_found && effective_flag(settings_value(settings)) {
            CloseAction::HideWindow
        } else {
            CloseAction::AllowClose
        }),
{
    if window_found && should_keep_running(settings) {
        CloseAction::HideWindow
    } else {
        CloseAction::AllowClose
    }
}

} // verus!
