//! The notifications that successful operations emit.
//!
//! Notifications are append-only, externally observable facts for
//! downstream indexers; the registry never reads them back.  Each operation
//! returns the notifications it emits, and its contract states their exact
//! contents; the host layer is what puts them on the wire.

use vstd::prelude::*;

use crate::Address;
use crate::Key;

verus! {

/// An agent registered itself explicitly.
#[derive(Debug)]
pub struct AgentRegistered {
    pub wallet: Key,
    pub metadata_uri: String,
}

/// The abstract value of an `AgentRegistered` notification.
pub struct AgentRegisteredV {
    pub wallet: Key,
    pub metadata_uri: Seq<char>,
}

impl View for AgentRegistered {
    type V = AgentRegisteredV;

    open spec fn view(&self) -> AgentRegisteredV {
        AgentRegisteredV { wallet: self.wallet, metadata_uri: self.metadata_uri@ }
    }
}

/// A job registration created the agent's record lazily.  Distinguishable
/// from `AgentRegistered` so observers can tell lazily created agents from
/// explicitly registered ones.
#[derive(PartialEq, Eq, Structural, Clone, Copy, Debug)]
pub struct AgentAutoCreated {
    pub wallet: Key,
}

/// An agent replaced its metadata pointer.
#[derive(Debug)]
pub struct AgentUpdated {
    pub wallet: Key,
    pub metadata_uri: String,
}

/// The abstract value of an `AgentUpdated` notification.
pub struct AgentUpdatedV {
    pub wallet: Key,
    pub metadata_uri: Seq<char>,
}

impl View for AgentUpdated {
    type V = AgentUpdatedV;

    open spec fn view(&self) -> AgentUpdatedV {
        AgentUpdatedV { wallet: self.wallet, metadata_uri: self.metadata_uri@ }
    }
}

/// An agent cleared its active flag.
#[derive(PartialEq, Eq, Structural, Clone, Copy, Debug)]
pub struct AgentDeactivated {
    pub wallet: Key,
}

/// A verified job/payment pairing was recorded.
#[derive(PartialEq, Eq, Structural, Clone, Copy, Debug)]
pub struct JobRegistered {
    pub job_id: Address,
    pub agent_wallet: Key,
    pub client_wallet: Key,
    pub payment_amount: u64,
}

/// Feedback was recorded for a job.
#[derive(PartialEq, Eq, Structural, Clone, Copy, Debug)]
pub struct FeedbackSubmitted {
    pub job_id: Address,
    pub client_wallet: Key,
    pub agent_wallet: Key,
    pub rating: u8,
    pub payment_amount: u64,
}

/// An agent's reputation aggregates changed.  The notification carries the
/// exact counters; the narrowed average that observers display is
/// `total_weighted_rating / total_weight` divided at 64-bit precision and
/// narrowed to 32 bits, computed by the host layer.
#[derive(PartialEq, Eq, Structural, Clone, Copy, Debug)]
pub struct ReputationUpdated {
    pub agent_wallet: Key,
    pub total_weighted_rating: u128,
    pub total_weight: u128,
}

} // verus!
