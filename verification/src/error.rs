//! Errors surfaced at construction time.  Once a handle exists its release
//! cannot fail from the caller's point of view, so no error is ever raised
//! after construction.

use vstd::prelude::*;

verus! {

/// Why an attach constructor returned no handle.
#[derive(Clone, Copy, Debug, PartialEq, Eq, Structural)]
pub enum AttachError {
    /// A supplied raw string (target name, category, function, or path)
    /// contains a NUL byte and cannot cross the kernel boundary.
    InvalidIdentifier,
    /// The external symbol resolver could not locate the requested
    /// user-space symbol.
    SymbolResolutionFailed,
    /// The kernel call reported failure.  The payload preserves what the
    /// backend reported: the negative descriptor under the modern ABI
    /// shape, or zero when the legacy shape returned a null handle.
    AttachRejected(i32),
}

impl AttachError {
    /// A short description of the failure, in place of a formatting
    /// trait.  The kernel-reported reason of `AttachRejected` stays
    /// available on the variant itself.
    pub fn message(&self) -> (r: String)
        ensures
            (match self {
                AttachError::InvalidIdentifier => r@
                    == "invalid identifier: a raw string holds a NUL byte"@,
                AttachError::SymbolResolutionFailed => r@
                    == "the requested user-space symbol could not be resolved"@,
                AttachError::AttachRejected(_) => r@ == "the kernel rejected the attach call"@,
            }),
    {
        match self {
            AttachError::InvalidIdentifier => String::from_str(
                "invalid identifier: a raw string holds a NUL byte",
            ),
            AttachError::SymbolResolutionFailed => String::from_str(
                "the requested user-space symbol could not be resolved",
            ),
            AttachError::AttachRejected(_) => String::from_str(
                "the kernel rejected the attach call",
            ),
        }
    }
}

} // verus!
