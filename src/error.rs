use vstd::prelude::*;

verus! {

/// Why a hint could not be registered or carried out.
///
/// `UnknownHint` is structural and aborts the run; `InvalidSkipTarget`,
/// `MalformedMockPayload`, `ExpectedRevertNotRaised` and
/// `RevertPatternMismatch` are assertion failures reported as the failure
/// reason of the test that raised them.
#[derive(Clone, Copy, Debug, PartialEq, Eq, Structural)]
pub enum HintError {
    /// The identifier at a hint site has no handler in the registry.
    UnknownHint,
    /// A strict registration named an identifier that is already registered.
    DuplicateHint,
    /// A `skip` boundary lies outside the current function frame.
    InvalidSkipTarget,
    /// A `mock_call` payload does not have the callee's return length.
    MalformedMockPayload,
    /// An `expect_revert` region reached its exit without failing.
    ExpectedRevertNotRaised,
    /// An `expect_revert` region failed with a message that does not match
    /// the expected pattern.
    RevertPatternMismatch,
}

impl HintError {
    /// Whether the error aborts the whole run rather than failing one test.
    pub fn is_fatal(&self) -> (r: bool)
        ensures
            r == (*self == HintError::UnknownHint || *self == HintError::DuplicateHint),
    {
        match self {
            HintError::UnknownHint => true,
            HintError::DuplicateHint => true,
            _ => false,
        }
    }
}

} // verus!
