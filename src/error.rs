use vstd::prelude::*;

use crate::dock::Sections;

verus! {

/// Failures of the document operations.
#[derive(Debug, Clone, Copy, PartialEq, Eq, Structural)]
pub enum DockError {
    /// The targeted section is absent from the document.
    SectionMissing(Sections),
    /// The caller supplied an input from which no entry can be built.
    PreconditionViolation,
}

} // verus!
