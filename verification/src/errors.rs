//! The error taxonomy surfaced through every worker boundary.
//!
//! Frame-level errors are transient (a corrupt frame must not kill the
//! stream); resource-level errors are fatal because the worker cannot proceed
//! usefully without the resource.
use vstd::prelude::*;

verus! {

/// The error type used throughout the player.
///
/// * `Application`: argument, configuration, URL or download failure.
/// * `Pipeline`: the image pipeline could not process a frame.
/// * `Terminal`: a TTY mode change or draw failed.
/// * `Audio`: an audio backend operation failed.
#[derive(Debug, Clone)]
pub enum MyError {
    Application(String),
    Pipeline(String),
    Terminal(String),
    Audio(String),
}

impl MyError {
    /// The description carried by the error, without its category.
    pub fn message(&self) -> (r: String)
        ensures
            r@ == self.message_view(),
    {
        match self {
            MyError::Application(s) => s.clone(),
            MyError::Pipeline(s) => s.clone(),
            MyError::Terminal(s) => s.clone(),
            MyError::Audio(s) => s.clone(),
        }
    }

    /// The description carried by the error, as a sequence of characters.
    pub open spec fn message_view(&self) -> Seq<char> {
        match self {
            MyError::Application(s) => s@,
            MyError::Pipeline(s) => s@,
            MyError::Terminal(s) => s@,
            MyError::Audio(s) => s@,
        }
    }
}

} // verus!
