//! The three record types of the registry and their field-level transitions.
//!
//! `AgentAccount` is created once per agent and accumulates the
//! payment-weighted reputation aggregates; `JobRecord` and `FeedbackRecord`
//! are write-once.  The narrowed floating-point average that observers read
//! is derived from the two exact integer counters
//! (`total_weighted_rating / total_weight`, divided at 64-bit precision and
//! narrowed to 32 bits); the library keeps the counters exact and leaves the
//! lossy narrowing to the host layer that reports it.

use vstd::prelude::*;

use crate::Address;
use crate::Key;
use crate::errors::ErrorCode;
use crate::errors::OpError;

verus! {

/// The directory record of one agent, stored at the address derived from the
/// agent namespace and the agent's wallet key.
pub struct AgentAccount {
    /// The agent's identity.
    pub wallet: Key,
    /// Pointer to off-ledger agent metadata.
    pub metadata_uri: String,
    /// When the record was created.
    pub created_at: i64,
    /// Cleared by deactivation; nothing sets it back.
    pub active: bool,
    /// Whether the record was created lazily by a job registration rather
    /// than by an explicit registration.
    pub auto_created: bool,
    /// Exact running sum of `rating * payment_amount` over all feedback.
    pub total_weighted_rating: u128,
    /// Exact running sum of `payment_amount` over all feedback.
    pub total_weight: u128,
    /// When the record was last changed.
    pub last_update: i64,
}

/// The record of one verified job/payment pairing, stored at the address
/// derived from the job namespace and the payment reference.
#[derive(PartialEq, Eq, Structural, Clone, Copy, Debug)]
pub struct JobRecord {
    /// The record's own derived address.
    pub job_id: Address,
    /// The client that paid for the job.
    pub client_wallet: Key,
    /// The agent that was paid.
    pub agent_wallet: Key,
    /// The payment reference the record is addressed by.
    pub payment_tx: Key,
    /// The transfer amount proved by the sibling instruction.
    pub payment_amount: u64,
    /// When the record was created.
    pub created_at: i64,
}

/// The single feedback record of one job, stored at the address derived from
/// the feedback namespace and the job's identity.
pub struct FeedbackRecord {
    /// The record's own derived address.
    pub feedback_id: Address,
    /// The job the feedback is about.
    pub job_id: Address,
    /// The client that submitted the feedback.
    pub client_wallet: Key,
    /// The agent the feedback rates.
    pub agent_wallet: Key,
    /// The rating, between 1 and 5 inclusive.
    pub rating: u8,
    /// Optional pointer to an off-ledger comment.
    pub comment_uri: Option<String>,
    /// The payment reference, copied from the job.
    pub proof_of_payment: Key,
    /// The payment amount, copied from the job.
    pub payment_amount: u64,
    /// When the feedback was submitted.
    pub timestamp: i64,
}

/// The abstract value of an agent record.
pub struct AgentAccountV {
    pub wallet: Key,
    pub metadata_uri: Seq<char>,
    pub created_at: i64,
    pub active: bool,
    pub auto_created: bool,
    pub total_weighted_rating: u128,
    pub total_weight: u128,
    pub last_update: i64,
}

impl View for AgentAccount {
    type V = AgentAccountV;

    open spec fn view(&self) -> AgentAccountV {
        AgentAccountV {
            wallet: self.wallet,
            metadata_uri: self.metadata_uri@,
            created_at: self.created_at,
            active: self.active,
            auto_created: self.auto_created,
            total_weighted_rating: self.total_weighted_rating,
            total_weight: self.total_weight,
            last_update: self.last_update,
        }
    }
}

impl View for JobRecord {
    type V = JobRecord;

    open spec fn view(&self) -> JobRecord {
        *self
    }
}

/// The abstract value of a feedback record.
pub struct FeedbackRecordV {
    pub feedback_id: Address,
    pub job_id: Address,
    pub client_wallet: Key,
    pub agent_wallet: Key,
    pub rating: u8,
    pub comment_uri: Option<Seq<char>>,
    pub proof_of_payment: Key,
    pub payment_amount: u64,
    pub timestamp: i64,
}

impl View for FeedbackRecord {
    type V = FeedbackRecordV;

    open spec fn view(&self) -> FeedbackRecordV {
        FeedbackRecordV {
            feedback_id: self.feedback_id,
            job_id: self.job_id,
            client_wallet: self.client_wallet,
            agent_wallet: self.agent_wallet,
            rating: self.rating,
            comment_uri: match self.comment_uri {
                Some(c) => Some(c@),
                None => None,
            },
            proof_of_payment: self.proof_of_payment,
            payment_amount: self.payment_amount,
            timestamp: self.timestamp,
        }
    }
}

/// The guards a feedback submission must pass against the job it rates:
/// the rating lies in 1 through 5, the caller is the job's recorded client,
/// and the proof of payment supplied is the payment reference the job was
/// recorded under.
pub open spec fn spec_check_feedback(
    job: JobRecord,
    client_wallet: Key,
    proof_of_payment: Key,
    rating: u8,
) -> Result<(), ErrorCode> {
    if !(1 <= rating <= 5) {
        Err(ErrorCode::InvalidRating)
    } else if job.client_wallet != client_wallet {
        Err(ErrorCode::UnauthorizedClient)
    } else if job.payment_tx != proof_of_payment {
        Err(ErrorCode::InvalidProofOfPayment)
    } else {
        Ok(())
    }
}

/// Check a feedback submission against its job, exactly as
/// `spec_check_feedback` rules.
pub fn check_feedback(job: &JobRecord, client_wallet: Key, proof_of_payment: Key, rating: u8) -> (r:
    Result<(), ErrorCode>)
    ensures
        r == spec_check_feedback(*job, client_wallet, proof_of_payment, rating),
{
    if !(1 <= rating && rating <= 5) {
        Err(ErrorCode::InvalidRating)
    } else if job.client_wallet != client_wallet {
        Err(ErrorCode::UnauthorizedClient)
    } else if job.payment_tx != proof_of_payment {
        Err(ErrorCode::InvalidProofOfPayment)
    } else {
        Ok(())
    }
}

impl AgentAccount {
    /// An identical record, field for field.
    pub fn duplicate(&self) -> (r: AgentAccount)
        ensures
            r == *self,
    {
        AgentAccount {
            wallet: self.wallet,
            metadata_uri: self.metadata_uri.clone(),
            created_at: self.created_at,
            active: self.active,
            auto_created: self.auto_created,
            total_weighted_rating: self.total_weighted_rating,
            total_weight: self.total_weight,
            last_update: self.last_update,
        }
    }

    /// The record an explicit registration creates: active, not auto-created,
    /// with zeroed aggregates.
    pub fn register(wallet: Key, metadata_uri: String, now: i64) -> (r: AgentAccount)
        ensures
            r == (AgentAccount {
                wallet,
                metadata_uri,
                created_at: now,
                active: true,
                auto_created: false,
                total_weighted_rating: 0,
                total_weight: 0,
                last_update: now,
            }),
    {
        AgentAccount {
            wallet,
            metadata_uri,
            created_at: now,
            active: true,
            auto_created: false,
            total_weighted_rating: 0,
            total_weight: 0,
            last_update: now,
        }
    }

    /// The record a job registration creates lazily for an unseen agent:
    /// active, marked auto-created, with empty metadata and zeroed
    /// aggregates.
    pub fn auto_create(wallet: Key, now: i64) -> (r: AgentAccount)
        ensures
            r.wallet == wallet,
            r.metadata_uri@ == Seq::<char>::empty(),
            r.created_at == now,
            r.active,
            r.auto_created,
            r.total_weighted_rating == 0,
            r.total_weight == 0,
            r.last_update == now,
    {
        AgentAccount {
            wallet,
            metadata_uri: String::new(),
            created_at: now,
            active: true,
            auto_created: true,
            total_weighted_rating: 0,
            total_weight: 0,
            last_update: now,
        }
    }

    /// Replace the metadata pointer and touch the update timestamp; every
    /// other field keeps its value.
    pub fn set_metadata(&mut self, metadata_uri: String, now: i64)
        ensures
            *final(self) == (AgentAccount { metadata_uri, last_update: now, ..*old(self) }),
    {
        self.metadata_uri = metadata_uri;
        self.last_update = now;
    }

    /// Clear the active flag and touch the update timestamp; every other
    /// field keeps its value.  No operation sets the flag back.
    pub fn deactivate(&mut self, now: i64)
        ensures
            *final(self) == (AgentAccount { active: false, last_update: now, ..*old(self) }),
    {
        self.active = false;
        self.last_update = now;
    }

    /// Fold one feedback rating, weighted by the payment amount that backed
    /// it, into the aggregates.  On success both counters grow by exactly
    /// the new contribution; if either counter would overflow, the record is
    /// left unchanged and the operation fails.
    pub fn fold_rating(&mut self, rating: u8, amount: u64, now: i64) -> (r: Result<(), OpError>)
        requires
            1 <= rating <= 5,
        ensures
            match r {
                Ok(()) => {
                    &&& old(self).total_weighted_rating + rating * amount <= u128::MAX
                    &&& old(self).total_weight + amount <= u128::MAX
                    &&& *final(self) == (AgentAccount {
                        total_weighted_rating: (old(self).total_weighted_rating
                            + rating * amount) as u128,
                        total_weight: (old(self).total_weight + amount) as u128,
                        last_update: now,
                        ..*old(self)
                    })
                },
                Err(e) => {
                    &&& e == OpError::AggregateOverflow
                    &&& *final(self) == *old(self)
                    &&& (old(self).total_weighted_rating + rating * amount > u128::MAX
                        || old(self).total_weight + amount > u128::MAX)
                },
            },
    {
        proof {
            assert(rating * amount <= 5 * 0xffff_ffff_ffff_ffffu64) by (nonlinear_arith)
                requires
                    rating <= 5,
                    amount <= 0xffff_ffff_ffff_ffffu64,
            ;
        }
        let contribution: u128 = (rating as u128) * (amount as u128);
        if contribution > u128::MAX - self.total_weighted_rating {
            return Err(OpError::AggregateOverflow);
        }
        if (amount as u128) > u128::MAX - self.total_weight {
            return Err(OpError::AggregateOverflow);
        }
        self.total_weighted_rating = self.total_weighted_rating + contribution;
        self.total_weight = self.total_weight + (amount as u128);
        self.last_update = now;
        Ok(())
    }
}

} // verus!
