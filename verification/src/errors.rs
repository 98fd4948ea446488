use vstd::prelude::*;

verus! {

/// The failure taxonomy of a single run. Every variant is fatal for the run:
/// none is retried and none is downgraded to a warning; the run aborts and
/// the process exits with a non-zero status.
#[derive(Clone, Copy, Debug, PartialEq, Eq, Structural)]
pub enum RunError {
    /// The script source could not be read.
    SourceUnavailable,
    /// The source text is not valid script syntax.
    CompileError,
    /// An uncaught error occurred while the script evaluated, or the
    /// coercion inside a host-function call failed.
    ExecutionError,
    /// The script's final value is not promise-shaped.
    ResultShapeError,
    /// An engine initialization or disposal invariant was violated.
    EngineLifecycleError,
}

impl RunError {
    /// The stage description reported to the operator for this error.
    pub open spec fn describe_spec(self) -> Seq<char> {
        match self {
            RunError::SourceUnavailable => "the script source could not be read"@,
            RunError::CompileError => "the script source is not valid syntax"@,
            RunError::ExecutionError => "the script failed while executing"@,
            RunError::ResultShapeError => "the script's result is not promise-shaped"@,
            RunError::EngineLifecycleError => "an engine lifecycle invariant was violated"@,
        }
    }

    /// The stage description reported to the operator for this error.
    pub fn describe(&self) -> (text: &'static str)
        ensures
            text@ == self.describe_spec(),
    {
        match self {
            RunError::SourceUnavailable => "the script source could not be read",
            RunError::CompileError => "the script source is not valid syntax",
            RunError::ExecutionError => "the script failed while executing",
            RunError::ResultShapeError => "the script's result is not promise-shaped",
            RunError::EngineLifecycleError => "an engine lifecycle invariant was violated",
        }
    }
}

/// Accepts the script source provider's outcome. The core needs only the
/// full text of the script; a failed read is fatal for the run as
/// `SourceUnavailable`.
pub fn accept_source(read: Option<String>) -> (r: Result<String, RunError>)
    ensures
        r is Ok <==> read is Some,
        read matches Some(text) ==> r matches Ok(accepted) && accepted@ == text@,
        read is None ==> r == Err::<String, RunError>(RunError::SourceUnavailable),
{
    match read {
        Some(text) => Ok(text),
        None => Err(RunError::SourceUnavailable),
    }
}

/// The process exit status for a finished run: zero exactly on success.
pub fn exit_status(outcome: &Result<(), RunError>) -> (status: i32)
    ensures
        outcome is Ok <==> status == 0,
        outcome is Err ==> status == 1,
{
    match outcome {
        Ok(()) => 0,
        Err(_) => 1,
    }
}

} // verus!
