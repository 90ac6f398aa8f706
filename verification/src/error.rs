//! Failure taxonomy of the pipeline.
//!
//! Every stage-local failure is terminal for the current request: nothing is
//! retried, and the caller must trigger again from the beginning.

use vstd::prelude::*;

verus! {

/// Which stage of the pipeline rejected the request.
#[derive(Clone, Copy, Debug, PartialEq, Eq, Structural)]
pub enum ErrorKind {
    /// The selected path is missing, is a directory, or has no usable
    /// extension; the request never reaches staging.
    Validation,
    /// A staging copy, directory creation, or asset write failed.
    Io,
    /// The capability module could not be loaded, its entry point could not
    /// be resolved, or the returned value did not have the shape
    /// `(integer, string)`.
    Bridge,
    /// The capability ran but reported the failure sentinel instead of an
    /// output path: it could not save its result.
    Processing,
    /// The output image written by the capability could not be read back for
    /// encoding; no stale result may be displayed.
    Presentation,
}

/// A terminal failure of one pipeline request.
#[derive(Debug)]
pub struct PipelineError {
    pub kind: ErrorKind,
    pub message: String,
}

/// Spec-level value of a [`PipelineError`].
pub struct ErrorModel {
    pub kind: ErrorKind,
    pub message: Seq<char>,
}

impl View for PipelineError {
    type V = ErrorModel;

    open spec fn view(&self) -> ErrorModel {
        ErrorModel { kind: self.kind, message: self.message@ }
    }
}

impl Clone for PipelineError {
    fn clone(&self) -> (r: Self)
        ensures
            r@ == self@,
    {
        PipelineError { kind: self.kind, message: self.message.clone() }
    }
}

impl PipelineError {
    /// Builds an error of the given kind carrying a diagnostic message.
    pub fn of_kind(kind: ErrorKind, message: String) -> (r: Self)
        ensures
            r@ == (ErrorModel { kind, message: message@ }),
    {
        PipelineError { kind, message }
    }
}

} // verus!
