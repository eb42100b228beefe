//! Application-level errors.

use vstd::prelude::*;
use vstd::string::StringExecFns;

use crate::state::{AppEvent, AppState};

verus! {

#[derive(Debug, Clone)]
pub enum AppError {
    InvalidStateTransition { from: AppState, event: AppEvent },
    Internal { message: String },
}

impl AppError {
    /// An internal error wrapping a message.
    pub fn internal(message: &str) -> (r: Self)
        ensures
            r matches AppError::Internal { message: m } && m@ == message@,
    {
        AppError::Internal { message: message.to_owned() }
    }
}

} // verus!
