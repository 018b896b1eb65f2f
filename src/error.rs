//! The failures that a command can end in.
use vstd::prelude::*;

verus! {

/// Why a command failed.
#[derive(Clone, Copy, Debug, PartialEq, Eq, Structural)]
pub enum SnmpError {
    /// A malformed identifier, an illegal combination of credentials, or nothing to request.
    InvalidInput,
    /// No response arrived in time.
    Timeout,
    /// A response failed authentication, or the agent's clock or boot count is not acceptable.
    SecurityError,
    /// The agent answered something that was not asked, or a walk did not advance.
    ProtocolError,
    /// The transport failed.
    IoError,
}

} // verus!
