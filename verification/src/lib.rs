//! Asynchronous TCP sockets over a completion-queue submission ring.
//!
//! Each socket object owns a file descriptor, an operation-state tag, and
//! the scratch memory its current kernel operation references. The guard
//! state machine enforces that at most one kernel operation is outstanding
//! per socket, that switching operation kinds cancels the prior operation
//! first, and that memory lent to the kernel is only released through a
//! cancellation token once the driver confirms it is safe.
//!
//! The ring/driver that talks to the kernel is an external collaborator:
//! callers submit the descriptors these sockets prepare, and feed the
//! completions back into the sockets' poll steps.

use vstd::prelude::*;

mod sys;

pub mod addr;
pub mod buffer;
pub mod event;
pub mod guard;
pub mod listener;
pub mod ring;
pub mod stream;
pub mod tcp;

verus! {

broadcast use vstd::string::to_string_from_display_ensures_for_str;

/// Errors surfaced to the caller: either an operating-system failure,
/// carrying the errno value, or an input-validation failure (an address
/// specification that resolved to no candidate at all).
#[derive(Clone, Copy, Debug, PartialEq, Eq)]
pub enum SocketError {
    /// The address specification yielded zero candidate addresses.
    InvalidInput,
    /// An operating-system call failed with this errno value.
    Os(i32),
}

impl SocketError {
    /// A short description of the error, for diagnostics.
    pub fn describe(&self) -> (r: String)
        ensures
            self is InvalidInput ==> r@ == "could not resolve to any addresses"@,
            self is Os ==> r@ == "operating-system error"@,
    {
        proof {
            reveal_strlit("could not resolve to any addresses");
            reveal_strlit("operating-system error");
        }
        match self {
            SocketError::InvalidInput => "could not resolve to any addresses".to_string(),
            SocketError::Os(_) => "operating-system error".to_string(),
        }
    }
}

} // verus!
