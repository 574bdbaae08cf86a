//! Fatal error classes of the creation pipeline. Ordinary validation
//! failures are not errors: they surface as a permanent `valid == false`
//! flag on the returned handle, so the caller keeps a well-typed handle.

use vstd::prelude::*;

verus! {

/// An error that aborts a creation operation outright.
#[derive(Clone, Copy, PartialEq, Eq, Structural, Debug)]
pub enum DeviceError {
    /// The identifier allocator ran out of identifiers for the requested
    /// resource kind. Resource-exhaustion class; fatal for the caller.
    IdentifiersExhausted,
    /// The bind-group validator met a binding kind it does not support yet.
    /// Surfaced explicitly so a real gap is never masked as ordinary
    /// invalidity.
    UnimplementedBindingKind,
}

impl DeviceError {
    /// Short description of the error, for hosts that need to report it.
    pub fn describe(&self) -> (r: &'static str)
        ensures
            self is IdentifiersExhausted ==> r@ == "resource identifiers exhausted"@,
            self is UnimplementedBindingKind ==> r@ == "unimplemented binding kind"@,
    {
        match self {
            DeviceError::IdentifiersExhausted => "resource identifiers exhausted",
            DeviceError::UnimplementedBindingKind => "unimplemented binding kind",
        }
    }
}

} // verus!
