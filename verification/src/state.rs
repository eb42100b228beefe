//! Application state: which surface is active, and the events that move
//! between them.

use vstd::prelude::*;

verus! {

#[derive(Clone, Copy, Debug, PartialEq, Eq, Structural)]
pub enum AppState {
    Idle,
    Preview,
    Editor,
}

impl Default for AppState {
    fn default() -> (r: Self)
        ensures
            r is Idle,
    {
        AppState::Idle
    }
}

#[derive(Clone, Copy, Debug, PartialEq, Eq, Structural)]
pub enum AppEvent {
    Start,
    OpenPreview,
    OpenEditor,
    CloseEditor,
    ClosePreview,
}

/// One recorded state transition.
#[derive(Clone, Copy, Debug, PartialEq, Eq, Structural)]
pub struct StateTransition {
    pub from: Option<AppState>,
    pub event: AppEvent,
    pub to: AppState,
}

impl StateTransition {
    pub fn new(from: Option<AppState>, event: AppEvent, to: AppState) -> (r: Self)
        ensures
            r == (StateTransition { from, event, to }),
    {
        StateTransition { from, event, to }
    }
}

} // verus!
