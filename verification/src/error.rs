//! Why an instruction fails.

use vstd::prelude::*;

verus! {

/// The failures an instruction can report. Either one aborts the whole
/// instruction; there is no partial success.
#[derive(Clone, Copy, Debug, PartialEq, Eq)]
pub enum Error {
    /// The accounts supplied do not meet what the instruction declares. Raised
    /// while the context is bound, before the handler runs.
    ConstraintViolation,
    /// The handler ran and gave up.
    HandlerFailure,
}

} // verus!
