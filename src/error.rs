use vstd::prelude::*;

verus! {

/// Where a JSON document failed to deserialize.
#[derive(Clone, Copy, Debug, PartialEq, Eq, Structural)]
pub enum Stage {
    /// The oracle lock manifest.
    Manifest,
    /// The outer, version-tagged envelope of a compiled program.
    ProgramEnvelope,
    /// The projection of a parsed envelope onto the one supported version.
    ProgramVersion,
}

/// Every way a run can fail before or during execution.
#[derive(Debug)]
pub enum RunError {
    /// No lock manifest path could be resolved.
    MissingConfiguration,
    /// A file could not be opened or read.
    Io { path: String },
    /// A file was read but its contents are malformed for the given stage.
    Deserialize { stage: Stage, path: String },
    /// A memory layout name outside the accepted set.
    InvalidLayout { value: String },
    /// The program called an oracle service the lock manifest does not declare.
    UnauthorizedOracleCall { service: String },
    /// The program called an oracle service but no oracle endpoint is configured.
    NoOracleEndpoint { service: String },
    /// Any other failure reported by the executor.
    ExecutorFailure { message: String },
}

} // verus!
