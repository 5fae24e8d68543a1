//! Failure taxonomy of the registry.
//!
//! `ErrorCode` lists the program's own validation failures: authorization
//! mismatches, malformed payment proofs, and domain checks.  `OpError` wraps
//! those and adds the failures that the host's keyed storage reports on the
//! registry's behalf: creation at an occupied address, a lookup of an absent
//! record, a sibling instruction index outside the transaction, and the
//! overflow guard on the aggregate counters.  Every failure aborts the whole
//! operation: no partial state change survives (the contracts of the
//! operations say so explicitly).

use vstd::prelude::*;

verus! {

/// A validation failure raised by the registry's own checks.
#[derive(PartialEq, Eq, Structural, Clone, Copy, Debug)]
pub enum ErrorCode {
    /// Rating must be between 1 and 5.
    InvalidRating,
    /// Client does not match the job record.
    UnauthorizedClient,
    /// Signer does not match the agent record's wallet.
    UnauthorizedAgent,
    /// Proof of payment does not match the job record.
    InvalidProofOfPayment,
    /// Token mint mismatch between the client and agent token accounts.
    TokenMintMismatch,
    /// Client token account owner does not match the client.
    InvalidClientTokenAccount,
    /// Agent token account owner does not match the agent.
    InvalidAgentTokenAccount,
    /// The sibling instruction is not a well-formed transfer by the expected
    /// program.
    InvalidTransferInstruction,
    /// The transfer amount bytes could not be decoded.
    InvalidTransferAmount,
    /// The transfer's source account does not match the client token account.
    TransferSourceMismatch,
    /// The transfer's destination account does not match the agent token
    /// account.
    TransferDestinationMismatch,
    /// The transfer's authority does not match the client.
    TransferAuthorityMismatch,
}

/// Why a registry operation failed.
///
/// The overflow policy for the unbounded aggregate counters is to fail the
/// operation (`AggregateOverflow`) rather than saturate, so a stored
/// aggregate is always the exact sum of the feedback that produced it.
#[derive(PartialEq, Eq, Structural, Clone, Copy, Debug)]
pub enum OpError {
    /// One of the program's own validation checks failed.
    Program(ErrorCode),
    /// A record already exists at the derived address.
    AccountInUse,
    /// No record exists at the derived address.
    AccountMissing,
    /// The transaction holds no instruction at the given index.
    MissingInstruction,
    /// Folding the feedback into the aggregates would overflow the counters.
    AggregateOverflow,
}

} // verus!
