//! The error taxonomy of the bridge layer.

use vstd::prelude::*;

verus! {

/// Why a bridge or document operation failed.
///
/// `NotApplicable`: the operation was invoked on the wrong entity kind
/// (open on a directory; list or create on a plain file).
/// `InvalidArgument`: a null or invalid foreign object or locator was handed
/// in.
/// `ForeignCall`: a resolution, invocation or field read against the host
/// platform failed; the platform's own diagnostic is attached and never
/// swallowed.
/// `UninitializedBridge`: thread attachment was attempted before any
/// successful initialization stored a runtime handle.
#[derive(Debug, Clone, PartialEq, Eq)]
pub enum SafError {
    NotApplicable,
    InvalidArgument,
    ForeignCall(String),
    UninitializedBridge,
}

impl SafError {
    /// The message that [`Self::describe`] returns.
    pub open spec fn describe_spec(&self) -> Seq<char> {
        match self {
            SafError::NotApplicable => "operation does not apply to this entity kind"@,
            SafError::InvalidArgument => "null or invalid foreign object or locator"@,
            SafError::ForeignCall(m) => "foreign call failed: "@ + m@,
            SafError::UninitializedBridge => "bridge runtime handle was never initialized"@,
        }
    }

    /// A human-readable description of the failure, with the platform's own
    /// diagnostic kept for foreign-call failures.
    pub fn describe(&self) -> (r: String)
        ensures
            r@ == self.describe_spec(),
    {
        match self {
            SafError::NotApplicable => String::from_str(
                "operation does not apply to this entity kind",
            ),
            SafError::InvalidArgument => String::from_str(
                "null or invalid foreign object or locator",
            ),
            SafError::ForeignCall(m) => String::from_str("foreign call failed: ").concat(
                m.as_str(),
            ),
            SafError::UninitializedBridge => String::from_str(
                "bridge runtime handle was never initialized",
            ),
        }
    }
}

} // verus!
