//! The three stages of a session.

use vstd::prelude::*;

verus! {

/// Where a session stands: at the settings, in a running test, or at the
/// score of a test that has ended.
#[derive(Clone, Copy, Debug, PartialEq, Eq, Structural)]
pub enum AppState {
    Configuration,
    Testing,
    Results,
}

impl Default for AppState {
    /// A session begins at the settings.
    fn default() -> (state: AppState)
        ensures
            state == AppState::Configuration,
    {
        AppState::Configuration
    }
}

} // verus!
