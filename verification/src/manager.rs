//! Opening and closing the overlay.
use vstd::prelude::*;
use crate::app_state::AppState;

verus! {

/// Shows and hides the overlay by way of the shared state.
pub struct OverlayManager;

impl OverlayManager {
    /// Marks the overlay open or closed; nothing else changes.
    pub fn set_state(app_state: &mut AppState, is_open: bool)
        ensures
            *final(app_state) == (AppState { is_open, ..*old(app_state) }),
    {
        app_state.is_open = is_open;
    }

    /// Marks the overlay closed.
    pub fn close(app_state: &mut AppState)
        ensures
            *final(app_state) == (AppState { is_open: false, ..*old(app_state) }),
    {
        Self::set_state(app_state, false);
    }

    /// Marks the overlay open.
    pub fn open(app_state: &mut AppState)
        ensures
            *final(app_state) == (AppState { is_open: true, ..*old(app_state) }),
    {
        Self::set_state(app_state, true);
    }
}

} // verus!
