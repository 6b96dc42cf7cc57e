//! Errors of the engine.
//!
//! Domain errors ([`ErrorCode`]) are failed precondition checks of an
//! operation; storage errors ([`StorageError`]) are faults of record
//! resolution (a record to create already exists, or a record to load is
//! absent) and form a distinct class. Every error is fatal to the enclosing
//! transition: the engine state is left exactly as it was.

use vstd::prelude::*;

verus! {

/// A failed precondition check of an engine operation.
#[derive(Clone, Copy, PartialEq, Eq, Structural, Debug)]
pub enum ErrorCode {
    /// The supplied preimage's hash does not match the stored commitment.
    InvalidSecret,
    /// The caller is not the channel owner.
    NotOwner,
    /// A cooperative close was attempted at or after the timelock deadline.
    TimelockExpired,
    /// A refund was attempted before the timelock deadline.
    TimelockNotExpired,
    /// An NPC mutation was attempted by someone other than its creator.
    NotCreator,
    /// The caller-supplied owner does not match the value stored at open time.
    WrongChannelOwner,
    /// The caller-supplied counter-party does not match the stored value.
    WrongChannelCounterParty,
    /// The caller-supplied template creator does not match the stored value.
    WrongTemplateCreator,
    /// The requested settlement exceeds the custody held, or no funds were
    /// committed at all.
    InsufficientFunds,
}

/// A fault of record resolution, distinct from the domain errors.
#[derive(Clone, Copy, PartialEq, Eq, Structural, Debug)]
pub enum StorageError {
    /// A record to be created already exists at its derived address.
    AlreadyExists,
    /// The addressed record does not exist (never created, or already
    /// destroyed by a settlement).
    NotFound,
}

/// Any failure of an engine operation.
#[derive(Clone, Copy, PartialEq, Eq, Structural, Debug)]
pub enum EngineError {
    /// A failed precondition check.
    Domain(ErrorCode),
    /// A record-resolution fault.
    Storage(StorageError),
}

} // verus!
