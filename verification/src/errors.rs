//! Error values for the link-settings query library.

use vstd::prelude::*;

verus! {

/// The distinct failure conditions a query can end in.
#[derive(Clone, Copy, Debug, PartialEq, Eq, Structural)]
pub enum EthtoolErrorKind {
    /// The interface name does not fit the fixed 16-byte kernel buffer.
    InvalidName,
    /// Neither socket family could be opened.
    SocketUnavailable,
    /// A control transfer returned a non-zero status.
    IoctlFailed,
    /// The probe round's response violates the negative-sentinel contract.
    ProtocolMismatch,
    /// The real round's response violates the positive-count contract.
    HandshakeFailed,
    /// A failure described only by its message.
    Other,
}

/// A descriptive failure value: a kind plus a human-readable message.
#[derive(Debug)]
pub struct EthtoolError {
    kind: EthtoolErrorKind,
    details: String,
}

impl EthtoolError {
    /// The failure condition this error reports.
    pub closed spec fn spec_kind(&self) -> EthtoolErrorKind {
        self.kind
    }

    /// The characters of the error message.
    pub closed spec fn spec_details(&self) -> Seq<char> {
        self.details@
    }

    /// Builds an error that carries only a message.
    pub fn new(msg: &str) -> (r: EthtoolError)
        ensures
            r.spec_kind() == EthtoolErrorKind::Other,
            r.spec_details() == msg@,
    {
        EthtoolError { kind: EthtoolErrorKind::Other, details: msg.to_owned() }
    }

    /// Builds an error of the given kind with a message.
    pub fn with_kind(kind: EthtoolErrorKind, msg: &str) -> (r: EthtoolError)
        ensures
            r.spec_kind() == kind,
            r.spec_details() == msg@,
    {
        EthtoolError { kind, details: msg.to_owned() }
    }

    /// Returns the failure condition.
    pub fn kind(&self) -> (k: EthtoolErrorKind)
        ensures
            k == self.spec_kind(),
    {
        self.kind
    }

    /// Returns the error message.
    pub fn description(&self) -> (d: &str)
        ensures
            d@ == self.spec_details(),
    {
        self.details.as_str()
    }
}

} // verus!
