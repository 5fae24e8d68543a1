//! A reputation registry for service-providing agents that are paid per job.
//!
//! The registry keeps one record per agent, one record per paid job, and one
//! feedback record per job.  Each feedback rating is weighted by the payment
//! amount that backed the job, so reputation cannot be bought cheaply.  The
//! registry never moves funds itself: a job registration proves that a token
//! transfer is co-scheduled in the same atomic transaction by inspecting a
//! sibling instruction.
//!
//! The host ledger stores every record at an address derived from a namespace
//! tag and an owner key, and rejects creation at an occupied address; that
//! collision rejection is what enforces every "at most one record" invariant.
//! This crate models the host's keyed storage directly and proves the
//! registry's state transitions against that model; the host-specific
//! plumbing (account allocation, signature checks, event transport) stays
//! outside the library.

use vstd::prelude::*;

pub mod errors;
pub mod events;
pub mod records;
pub mod transfer;
pub mod table;
pub mod registry;
pub mod laws;

verus! {

/// A 32-byte host address or public key, held as four 64-bit words.
///
/// The host ledger identifies wallets, token accounts, programs and stored
/// records by 32-byte keys; the registry only ever compares them for
/// equality, so the four-word form carries exactly what the logic reads.
#[derive(PartialEq, Eq, Structural, Clone, Copy, Debug)]
pub struct Key {
    pub w0: u64,
    pub w1: u64,
    pub w2: u64,
    pub w3: u64,
}

impl Key {
    pub fn new(w0: u64, w1: u64, w2: u64, w3: u64) -> (k: Key)
        ensures
            k == (Key { w0, w1, w2, w3 }),
    {
        Key { w0, w1, w2, w3 }
    }
}

/// The namespace tag under which a record's address is derived.
#[derive(PartialEq, Eq, Structural, Clone, Copy, Debug)]
pub enum Namespace {
    Agent,
    Job,
    Feedback,
}

/// A derived storage address.
///
/// The host derives a record's address from a namespace tag and a key by a
/// deterministic, collision-resistant hash, and rejects creation at an
/// occupied address.  Under the assumption that distinct inputs never
/// collide, an address is faithfully modelled by its derivation inputs:
/// identical inputs give identical addresses by construction, and distinct
/// inputs give distinct addresses.  A feedback record's address is derived
/// from its job's address, which is in turn derived from the payment
/// reference, so it is modelled by the payment reference key under the
/// feedback namespace.
#[derive(PartialEq, Eq, Structural, Clone, Copy, Debug)]
pub struct Address {
    pub namespace: Namespace,
    pub key: Key,
}

/// Derive the storage address for a record: deterministic in its inputs, and
/// distinct pairs of inputs yield distinct addresses.
pub fn derive_address(namespace: Namespace, key: Key) -> (a: Address)
    ensures
        a == (Address { namespace, key }),
{
    Address { namespace, key }
}

/// The address of an agent's directory record.
pub open spec fn agent_address(wallet: Key) -> Address {
    Address { namespace: Namespace::Agent, key: wallet }
}

/// The address of the job record for a payment reference.
pub open spec fn job_address(payment_tx: Key) -> Address {
    Address { namespace: Namespace::Job, key: payment_tx }
}

/// The address of the feedback record for the job keyed by a payment
/// reference.
pub open spec fn feedback_address(payment_tx: Key) -> Address {
    Address { namespace: Namespace::Feedback, key: payment_tx }
}

} // verus!
