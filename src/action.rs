//! Build-step lifecycle events.
use vstd::prelude::*;

verus! {

/// Identifies one build step for its whole lifetime.
#[derive(Clone, Copy, Debug, PartialEq, Eq, Structural, Hash)]
pub struct BuildStepId(pub u64);

/// The category of a step that has started; `Unknown` is for steps that no
/// specific handler recognises.
#[derive(Clone, Copy, Debug, PartialEq, Eq, Structural)]
pub enum StartFields {
    Unknown,
    CopyPath,
    FileTransfer,
    Realise,
    Build,
    Substitute,
}

/// Something that happened to a build step.
#[derive(Debug)]
pub enum Action {
    /// A step began; `start_type` picks the handler kind and `text` is its label.
    Start { id: BuildStepId, start_type: StartFields, text: String },
    /// The step `id` has concluded: every handler that owns it retires.
    Stop { id: BuildStepId },
    /// A free-form message; no handler of this library reacts to it.
    Message { text: String },
}

/// A handler's verdict on one action.
#[derive(Clone, Copy, Debug, PartialEq, Eq, Structural)]
pub enum HandlerResult {
    Continue,
    Close,
}

/// Whether `a` says that step `id` has concluded.
pub open spec fn stops(a: Action, id: BuildStepId) -> bool {
    a matches Action::Stop { id: sid } && sid == id
}

/// Tells whether `action` is the `Stop` of step `id`.
pub fn is_stop_of(action: &Action, id: BuildStepId) -> (r: bool)
    ensures
        r == stops(*action, id),
{
    match action {
        Action::Stop { id: sid } => *sid == id,
        _ => false,
    }
}

} // verus!
