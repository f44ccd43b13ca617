//! Errors of the mint auditor.
use vstd::prelude::*;

verus! {

/// Why an auditor operation did not go through.
#[derive(Clone, Debug, PartialEq, Eq)]
pub enum Error {
    /// The object has not been saved to the database, so it has no id.
    ObjectNotSaved,
    /// No object matched the request.
    NotFound,
    /// The object is already recorded.
    AlreadyExists(String),
    /// A deposit and the MintTx it should back disagree.
    DepositAndMintMismatch(String),
    /// Any other failure, described by the message.
    Other(String),
}

} // verus!
