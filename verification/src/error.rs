//! The unified error of the adaptation layer.

use vstd::prelude::*;

verus! {

/// The conditions that this layer itself reports to the protocol engine.
#[derive(Clone, Copy, Debug, PartialEq, Eq)]
pub enum ErrorCode {
    /// The network is not available: the radio refused or failed an operation.
    NoNetworkInterface,
}

/// An error raised by this layer.
#[derive(Clone, Copy, Debug, PartialEq, Eq)]
pub struct Error {
    /// The condition that the error reports.
    pub code: ErrorCode,
}

impl Error {
    /// Creates the error that reports `code`.
    pub fn new(code: ErrorCode) -> (e: Self)
        ensures
            e == (Error { code }),
    {
        Error { code }
    }

    /// Returns the condition that the error reports.
    pub fn code(&self) -> (code: ErrorCode)
        ensures
            code == self.code,
    {
        self.code
    }
}

/// Why an operation of this layer failed: the layer raised the error
/// itself, or the protocol engine failed and its error is handed through
/// unchanged.
#[derive(Debug, PartialEq, Eq)]
pub enum Fault<E> {
    /// The layer raised the error.
    Adapter(Error),
    /// The protocol engine failed with this error.
    Engine(E),
}

} // verus!
