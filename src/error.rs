use vstd::prelude::*;

verus! {

/// Errors raised by the gateway's own logic.
#[derive(Debug, Clone, Copy, PartialEq, Eq, Structural)]
pub enum RippleError {
    /// A text could not be read as the value that was asked for.
    ParseError,
    /// Bootstrap met a broken extension entry and cannot go on.
    BootstrapError,
    /// A request could not be routed to anyone.
    InvalidAccess,
    /// The caller may not use what it asked for.
    PermissionDenied,
}

} // verus!

verus! {

/// The error an RPC caller receives.
#[derive(Debug)]
pub struct RpcError {
    pub message: String,
}

} // verus!
