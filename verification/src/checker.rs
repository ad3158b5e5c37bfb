//! The path checker: the state of the launch affordance as a function of the
//! path field and of whether the target executable was found.

use vstd::prelude::*;
use std::path::PathBuf;
use crate::paths::{joined_text, path_from, path_is_file, path_join, path_text};

verus! {

/// File name of the runtime executable that the launcher looks for and starts.
pub const RUNTIME: &'static str = "PXStudioRuntimeMMO.exe";

/// The three mutually exclusive states of the launch affordance.
#[derive(Clone, Copy, Debug, PartialEq, Eq, Structural)]
pub enum LaunchState {
    /// Nothing has been entered yet.
    Empty,
    /// A path was entered and the target executable is not under it.
    Invalid,
    /// A path was entered and the target executable is a regular file directly under it.
    Ready,
}

/// The state that a path field holding `path` is in, where `present` says
/// whether the target executable is a regular file directly under `path`.
pub open spec fn launch_state_of(path: Seq<char>, present: bool) -> LaunchState {
    if path.len() == 0 {
        LaunchState::Empty
    } else if present {
        LaunchState::Ready
    } else {
        LaunchState::Invalid
    }
}

/// Decides the state from the path and the outcome of the file check.
pub fn launch_state(path: &str, present: bool) -> (state: LaunchState)
    ensures
        state == launch_state_of(path@, present),
{
    if path.is_empty() {
        LaunchState::Empty
    } else if present {
        LaunchState::Ready
    } else {
        LaunchState::Invalid
    }
}

/// With nothing entered the state is `Empty`, and never `Invalid`, whatever
/// the disk holds.
pub proof fn lemma_empty_path_is_empty(path: Seq<char>, present: bool)
    requires
        path.len() == 0,
    ensures
        launch_state_of(path, present) == LaunchState::Empty,
{
}

/// A path that was entered and holds the target executable is `Ready`.
pub proof fn lemma_present_is_ready(path: Seq<char>)
    requires
        path.len() != 0,
    ensures
        launch_state_of(path, true) == LaunchState::Ready,
{
}

/// Every other path that was entered is `Invalid`.
pub proof fn lemma_absent_is_invalid(path: Seq<char>)
    requires
        path.len() != 0,
    ensures
        launch_state_of(path, false) == LaunchState::Invalid,
{
}

/// Gives the path at which the target executable is looked for: the
/// directory `path` extended by the name of the target, and nothing else.
pub fn target_path(path: &str) -> (target: PathBuf)
    ensures
        path_text(target) == joined_text(path@, RUNTIME@),
{
    let dir = path_from(path);
    path_join(&dir, RUNTIME)
}

/// Asks the filesystem whether the target executable is a regular file
/// directly under `path`: whether [`target_path`] names one. The answer is
/// whatever the disk holds at the moment of the call.
pub fn target_exists(path: &String) -> (found: bool) {
    let target = target_path(path.as_str());
    path_is_file(&target)
}

} // verus!
