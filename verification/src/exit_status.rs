use vstd::prelude::*;

verus! {

/// Process-level outcome of one invocation, following the conventional
/// BSD exit classes that the binaries report.
#[derive(Copy, Clone, Debug, PartialEq, Eq, Structural)]
pub enum ExitStatus {
    /// Everything that was requested completed.
    Success,
    /// The command line could not be parsed or validated (including help and
    /// version requests, which are not errors).
    Usage,
    /// The input text failed lexical analysis.
    DataErr,
    /// An internal failure of the tool itself.
    Software,
    /// A pipeline phase or an external tool could not be run.
    Unavailable,
}

} // verus!
