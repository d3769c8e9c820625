use vstd::prelude::*;

verus! {

/// The request field that a validation error is about.
#[derive(Debug, Clone, Copy, PartialEq, Eq, Structural)]
pub enum Field {
    Cell,
    CellName,
    CpuWeight,
    Executable,
    ExecutableName,
    ExecutableCommand,
}

/// Why an inbound request was turned down before it reached the registry.
#[derive(Debug, Clone, Copy, PartialEq, Eq, Structural)]
pub enum ValidationError {
    /// The field is missing or empty.
    Required { field: Field },
    /// The field is present but malformed.
    Invalid { field: Field },
}


/// The status codes an RPC answers with.
#[derive(Debug, Clone, Copy, PartialEq, Eq, Structural)]
pub enum Code {
    Unknown,
    InvalidArgument,
    NotFound,
    AlreadyExists,
    FailedPrecondition,
    Internal,
    Unavailable,
}

impl ValidationError {
    /// A request that fails validation is an invalid argument.
    pub fn code(&self) -> (r: Code)
        ensures
            r == Code::InvalidArgument,
    {
        Code::InvalidArgument
    }
}

} // verus!
