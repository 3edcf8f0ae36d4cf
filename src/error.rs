use vstd::prelude::*;

verus! {

/// The broad class of a failure.
#[derive(Clone, Copy, Debug, PartialEq, Eq, Structural)]
pub enum ErrorKind {
    /// A scene or script file could not be read.
    Io,
    /// Document text is malformed.
    Parse,
    /// A script module failed to build.
    ScriptCompile,
    /// A required entry point is missing, or a script invocation failed.
    ScriptRuntime,
    /// A value crossing the scripting boundary has no document form.
    Serialization,
    /// A spawn request is not a well-formed entity.
    Validation,
}

/// An error raised by the engine: its kind and a human readable reason.
#[derive(Clone, Debug)]
pub struct IslandError {
    pub kind: ErrorKind,
    pub reason: String,
}

/// The result type used throughout the engine.
pub type IslandResult<T> = Result<T, IslandError>;

impl IslandError {
    /// Construct a new error of the given kind.
    pub fn new(kind: ErrorKind, reason: String) -> (r: Self)
        ensures
            r.kind == kind,
            r.reason@ == reason@,
    {
        IslandError { kind, reason }
    }
}

} // verus!
