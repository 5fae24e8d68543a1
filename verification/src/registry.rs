//! The registry's state and its five operations.
//!
//! The whole registry is modelled as keyed storage per namespace: agent
//! records keyed by the agent's wallet, job records keyed by the payment
//! reference, feedback records keyed by the payment reference of the job
//! they rate.  Each operation is specified by a transition function on the
//! abstract state; the executable operation returns exactly what the
//! transition rules, and every failure leaves the state exactly as it was
//! (the host commits an operation atomically or not at all).

use vstd::prelude::*;

use crate::Address;
use crate::Key;
use crate::Namespace;
use crate::agent_address;
use crate::derive_address;
use crate::feedback_address;
use crate::job_address;
use crate::errors::ErrorCode;
use crate::errors::OpError;
use crate::events::AgentAutoCreated;
use crate::events::AgentDeactivated;
use crate::events::AgentRegistered;
use crate::events::AgentRegisteredV;
use crate::events::AgentUpdated;
use crate::events::AgentUpdatedV;
use crate::events::FeedbackSubmitted;
use crate::events::JobRegistered;
use crate::events::ReputationUpdated;
use crate::records::AgentAccount;
use crate::records::AgentAccountV;
use crate::records::FeedbackRecord;
use crate::records::FeedbackRecordV;
use crate::records::JobRecord;
use crate::records::check_feedback;
use crate::records::spec_check_feedback;
use crate::table::Table;
use crate::transfer::TokenAccountInfo;
use crate::transfer::TransferInstruction;
use crate::transfer::TransferInstructionView;
use crate::transfer::check_token_accounts;
use crate::transfer::spec_check_token_accounts;
use crate::transfer::spec_verify_transfer;
use crate::transfer::verify_transfer;
use vstd::pervasive::unreached;

verus! {

/// The abstract registry state: one map of records per namespace.
pub struct RegistryView {
    pub agents: Map<Address, AgentAccountV>,
    pub jobs: Map<Address, JobRecord>,
    pub feedbacks: Map<Address, FeedbackRecordV>,
}

/// What holds of every agent entry: it sits under the agent namespace and
/// records the identity its address was derived from.
pub open spec fn wf_agent_entry(a: Address, r: AgentAccountV) -> bool {
    &&& a.namespace == Namespace::Agent
    &&& r.wallet == a.key
}

/// What holds of every job entry: it sits under the job namespace at the
/// address derived from its payment reference, knows its own address, and
/// its agent has a directory record.
pub open spec fn wf_job_entry(s: RegistryView, a: Address, j: JobRecord) -> bool {
    &&& a.namespace == Namespace::Job
    &&& j.payment_tx == a.key
    &&& j.job_id == a
    &&& s.agents.contains_key(agent_address(j.agent_wallet))
}

/// What holds of every feedback entry: it rates the job keyed by the same
/// payment reference and copies that job's parties, reference and amount,
/// with a rating in range.
pub open spec fn wf_feedback_entry(s: RegistryView, a: Address, f: FeedbackRecordV) -> bool {
    &&& a.namespace == Namespace::Feedback
    &&& s.jobs.contains_key(job_address(a.key))
    &&& {
        let j = s.jobs[job_address(a.key)];
        &&& f.feedback_id == a
        &&& f.job_id == j.job_id
        &&& f.client_wallet == j.client_wallet
        &&& f.agent_wallet == j.agent_wallet
        &&& f.proof_of_payment == j.payment_tx
        &&& f.payment_amount == j.payment_amount
        &&& 1 <= f.rating <= 5
    }
}

/// The registry's invariant, established empty and preserved by every
/// operation.
pub open spec fn wf_view(s: RegistryView) -> bool {
    &&& forall|a: Address| #[trigger] s.agents.contains_key(a) ==> wf_agent_entry(a, s.agents[a])
    &&& forall|a: Address| #[trigger] s.jobs.contains_key(a) ==> wf_job_entry(s, a, s.jobs[a])
    &&& forall|a: Address| #[trigger] s.feedbacks.contains_key(a) ==> wf_feedback_entry(
        s,
        a,
        s.feedbacks[a],
    )
}

/// The agent record a registration creates: active, with zeroed aggregates.
pub open spec fn spec_agent_record(
    wallet: Key,
    metadata_uri: Seq<char>,
    auto_created: bool,
    now: i64,
) -> AgentAccountV {
    AgentAccountV {
        wallet,
        metadata_uri,
        created_at: now,
        active: true,
        auto_created,
        total_weighted_rating: 0,
        total_weight: 0,
        last_update: now,
    }
}

/// Explicit agent registration: creates the record at the derived address,
/// or fails on collision with the state untouched.
pub open spec fn spec_register_agent(
    s: RegistryView,
    wallet: Key,
    metadata_uri: Seq<char>,
    now: i64,
) -> (RegistryView, Result<AgentRegisteredV, OpError>) {
    let addr = agent_address(wallet);
    if s.agents.contains_key(addr) {
        (s, Err(OpError::AccountInUse))
    } else {
        (
            RegistryView {
                agents: s.agents.insert(addr, spec_agent_record(wallet, metadata_uri, false, now)),
                jobs: s.jobs,
                feedbacks: s.feedbacks,
            },
            Ok(AgentRegisteredV { wallet, metadata_uri }),
        )
    }
}

/// Metadata update: only the record's owner may do it, and only the
/// metadata pointer and the update timestamp change.
pub open spec fn spec_update_agent(
    s: RegistryView,
    wallet: Key,
    signer: Key,
    metadata_uri: Seq<char>,
    now: i64,
) -> (RegistryView, Result<AgentUpdatedV, OpError>) {
    let addr = agent_address(wallet);
    if !s.agents.contains_key(addr) {
        (s, Err(OpError::AccountMissing))
    } else if s.agents[addr].wallet != signer {
        (s, Err(OpError::Program(ErrorCode::UnauthorizedAgent)))
    } else {
        let r0 = s.agents[addr];
        (
            RegistryView {
                agents: s.agents.insert(
                    addr,
                    AgentAccountV { metadata_uri, last_update: now, ..r0 },
                ),
                jobs: s.jobs,
                feedbacks: s.feedbacks,
            },
            Ok(AgentUpdatedV { wallet: r0.wallet, metadata_uri }),
        )
    }
}

/// Deactivation: only the record's owner may do it; it clears the active
/// flag, and nothing ever sets the flag back.
pub open spec fn spec_deactivate_agent(s: RegistryView, wallet: Key, signer: Key, now: i64) -> (
    RegistryView,
    Result<AgentDeactivated, OpError>,
) {
    let addr = agent_address(wallet);
    if !s.agents.contains_key(addr) {
        (s, Err(OpError::AccountMissing))
    } else if s.agents[addr].wallet != signer {
        (s, Err(OpError::Program(ErrorCode::UnauthorizedAgent)))
    } else {
        let r0 = s.agents[addr];
        (
            RegistryView {
                agents: s.agents.insert(addr, AgentAccountV { active: false, last_update: now, ..r0 }),
                jobs: s.jobs,
                feedbacks: s.feedbacks,
            },
            Ok(AgentDeactivated { wallet: r0.wallet }),
        )
    }
}

/// Job registration: the token accounts must share one mint and belong to
/// the claimed parties, the sibling instruction at the given index must
/// verify as the claimed transfer, and no job may yet exist for the payment
/// reference.  On success the agent's record is created lazily if absent,
/// and the job record holds the amount the verifier proved.  On any failure
/// nothing changes.
pub open spec fn spec_register_job(
    s: RegistryView,
    client_wallet: Key,
    agent_wallet: Key,
    payment_tx: Key,
    client_token: TokenAccountInfo,
    agent_token: TokenAccountInfo,
    token_program: Key,
    transfer_instruction_index: u8,
    instructions: Seq<TransferInstructionView>,
    now: i64,
) -> (RegistryView, Result<(Option<AgentAutoCreated>, JobRegistered), OpError>) {
    if spec_check_token_accounts(client_wallet, agent_wallet, client_token, agent_token) is Err {
        (
            s,
            Err(
                OpError::Program(
                    spec_check_token_accounts(
                        client_wallet,
                        agent_wallet,
                        client_token,
                        agent_token,
                    )->Err_0,
                ),
            ),
        )
    } else if transfer_instruction_index >= instructions.len() {
        (s, Err(OpError::MissingInstruction))
    } else {
        match spec_verify_transfer(
            instructions[transfer_instruction_index as int],
            token_program,
            client_token.address,
            agent_token.address,
            client_wallet,
        ) {
            Err(e) => (s, Err(OpError::Program(e))),
            Ok(amount) => {
                let jaddr = job_address(payment_tx);
                if s.jobs.contains_key(jaddr) {
                    (s, Err(OpError::AccountInUse))
                } else {
                    let aaddr = agent_address(agent_wallet);
                    let auto = !s.agents.contains_key(aaddr);
                    let agents2 = if auto {
                        s.agents.insert(
                            aaddr,
                            spec_agent_record(agent_wallet, Seq::empty(), true, now),
                        )
                    } else {
                        s.agents
                    };
                    let job = JobRecord {
                        job_id: jaddr,
                        client_wallet,
                        agent_wallet,
                        payment_tx,
                        payment_amount: amount,
                        created_at: now,
                    };
                    (
                        RegistryView {
                            agents: agents2,
                            jobs: s.jobs.insert(jaddr, job),
                            feedbacks: s.feedbacks,
                        },
                        Ok(
                            (
                                if auto {
                                    Some(AgentAutoCreated { wallet: agent_wallet })
                                } else {
                                    None
                                },
                                JobRegistered {
                                    job_id: jaddr,
                                    agent_wallet,
                                    client_wallet,
                                    payment_amount: amount,
                                },
                            ),
                        ),
                    )
                }
            },
        }
    }
}

/// Feedback submission: the rating must lie in 1 through 5, the job for the
/// payment reference must exist and name the caller as its client, the
/// job's reference must match the proof supplied, and no feedback may yet
/// exist for the job.  On success the feedback record copies the job's
/// parties and amount, and the agent's aggregates grow by exactly the
/// weighted contribution; if a counter would overflow, the operation fails
/// instead.  On any failure nothing changes.
pub open spec fn spec_submit_feedback(
    s: RegistryView,
    client_wallet: Key,
    proof_of_payment: Key,
    rating: u8,
    comment_uri: Option<Seq<char>>,
    now: i64,
) -> (RegistryView, Result<(FeedbackSubmitted, ReputationUpdated), OpError>) {
    if !(1 <= rating <= 5) {
        (s, Err(OpError::Program(ErrorCode::InvalidRating)))
    } else {
        let jaddr = job_address(proof_of_payment);
        if !s.jobs.contains_key(jaddr) {
            (s, Err(OpError::AccountMissing))
        } else {
            let job = s.jobs[jaddr];
            if spec_check_feedback(job, client_wallet, proof_of_payment, rating) is Err {
                (
                    s,
                    Err(
                        OpError::Program(
                            spec_check_feedback(job, client_wallet, proof_of_payment, rating)->Err_0,
                        ),
                    ),
                )
            } else {
                let faddr = feedback_address(proof_of_payment);
                if s.feedbacks.contains_key(faddr) {
                    (s, Err(OpError::AccountInUse))
                } else {
                    let aaddr = agent_address(job.agent_wallet);
                    if !s.agents.contains_key(aaddr) {
                        (s, Err(OpError::AccountMissing))
                    } else {
                        let agent = s.agents[aaddr];
                        if agent.total_weighted_rating + rating * job.payment_amount > u128::MAX
                            || agent.total_weight + job.payment_amount > u128::MAX {
                            (s, Err(OpError::AggregateOverflow))
                        } else {
                            let agent2 = AgentAccountV {
                                total_weighted_rating: (agent.total_weighted_rating + rating
                                    * job.payment_amount) as u128,
                                total_weight: (agent.total_weight + job.payment_amount) as u128,
                                last_update: now,
                                ..agent
                            };
                            let fb = FeedbackRecordV {
                                feedback_id: faddr,
                                job_id: job.job_id,
                                client_wallet,
                                agent_wallet: job.agent_wallet,
                                rating,
                                comment_uri,
                                proof_of_payment,
                                payment_amount: job.payment_amount,
                                timestamp: now,
                            };
                            (
                                RegistryView {
                                    agents: s.agents.insert(aaddr, agent2),
                                    jobs: s.jobs,
                                    feedbacks: s.feedbacks.insert(faddr, fb),
                                },
                                Ok(
                                    (
                                        FeedbackSubmitted {
                                            job_id: job.job_id,
                                            client_wallet,
                                            agent_wallet: job.agent_wallet,
                                            rating,
                                            payment_amount: job.payment_amount,
                                        },
                                        ReputationUpdated {
                                            agent_wallet: agent.wallet,
                                            total_weighted_rating: agent2.total_weighted_rating,
                                            total_weight: agent2.total_weight,
                                        },
                                    ),
                                ),
                            )
                        }
                    }
                }
            }
        }
    }
}

/// The registry: the host's keyed storage for the three record kinds.
pub struct Registry {
    agents: Table<AgentAccount>,
    jobs: Table<JobRecord>,
    feedbacks: Table<FeedbackRecord>,
}

impl View for Registry {
    type V = RegistryView;

    closed spec fn view(&self) -> RegistryView {
        RegistryView { agents: self.agents@, jobs: self.jobs@, feedbacks: self.feedbacks@ }
    }
}

impl Registry {
    /// The registry's well-formedness: sound storage and the semantic
    /// invariant over the abstract state.
    pub closed spec fn wf(self) -> bool {
        &&& self.agents.wf()
        &&& self.jobs.wf()
        &&& self.feedbacks.wf()
        &&& wf_view(self@)
    }

    /// The semantic invariant holds of the abstract state of every
    /// well-formed registry.
    pub proof fn lemma_wf_view(self)
        requires
            self.wf(),
        ensures
            wf_view(self@),
    {
    }

    /// An empty registry.
    pub fn new() -> (r: Registry)
        ensures
            r.wf(),
            r@.agents == Map::<Address, AgentAccountV>::empty(),
            r@.jobs == Map::<Address, JobRecord>::empty(),
            r@.feedbacks == Map::<Address, FeedbackRecordV>::empty(),
    {
        Registry { agents: Table::new(), jobs: Table::new(), feedbacks: Table::new() }
    }

    /// The agent record for a wallet, if one exists.
    pub fn get_agent(&self, wallet: Key) -> (r: Option<&AgentAccount>)
        requires
            self.wf(),
        ensures
            match r {
                Some(v) => self@.agents.contains_key(agent_address(wallet)) && v@ == self@.agents[
                    agent_address(wallet)
                ],
                None => !self@.agents.contains_key(agent_address(wallet)),
            },
    {
        self.agents.get(derive_address(Namespace::Agent, wallet))
    }

    /// The job record for a payment reference, if one exists.
    pub fn get_job(&self, payment_tx: Key) -> (r: Option<&JobRecord>)
        requires
            self.wf(),
        ensures
            match r {
                Some(v) => self@.jobs.contains_key(job_address(payment_tx)) && *v == self@.jobs[
                    job_address(payment_tx)
                ],
                None => !self@.jobs.contains_key(job_address(payment_tx)),
            },
    {
        self.jobs.get(derive_address(Namespace::Job, payment_tx))
    }

    /// The feedback record for the job keyed by a payment reference, if one
    /// exists.
    pub fn get_feedback(&self, payment_tx: Key) -> (r: Option<&FeedbackRecord>)
        requires
            self.wf(),
        ensures
            match r {
                Some(v) => self@.feedbacks.contains_key(feedback_address(payment_tx)) && v@
                    == self@.feedbacks[feedback_address(payment_tx)],
                None => !self@.feedbacks.contains_key(feedback_address(payment_tx)),
            },
    {
        self.feedbacks.get(derive_address(Namespace::Feedback, payment_tx))
    }

    /// Register an agent explicitly, exactly as `spec_register_agent` rules.
    pub fn register_agent(&mut self, wallet: Key, metadata_uri: String, now: i64) -> (r: Result<
        AgentRegistered,
        OpError,
    >)
        requires
            old(self).wf(),
        ensures
            final(self).wf(),
            ({
                let (s2, out) = spec_register_agent(old(self)@, wallet, metadata_uri@, now);
                &&& final(self)@ == s2
                &&& match (r, out) {
                    (Ok(e), Ok(ev)) => e@ == ev,
                    (Err(e), Err(ev)) => e == ev,
                    _ => false,
                }
            }),
    {
        let addr = derive_address(Namespace::Agent, wallet);
        let record = AgentAccount::register(wallet, metadata_uri.clone(), now);
        match self.agents.create(addr, record) {
            Ok(()) => {
                proof {
                    lemma_insert_agent_preserves_wf(
                        old(self)@,
                        addr,
                        spec_agent_record(wallet, metadata_uri@, false, now),
                    );
                }
                Ok(AgentRegistered { wallet, metadata_uri })
            },
            Err(e) => Err(e),
        }
    }

    /// Update an agent's metadata, exactly as `spec_update_agent` rules.
    pub fn update_agent(&mut self, wallet: Key, signer: Key, metadata_uri: String, now: i64) -> (r:
        Result<AgentUpdated, OpError>)
        requires
            old(self).wf(),
        ensures
            final(self).wf(),
            ({
                let (s2, out) = spec_update_agent(old(self)@, wallet, signer, metadata_uri@, now);
                &&& final(self)@ == s2
                &&& match (r, out) {
                    (Ok(e), Ok(ev)) => e@ == ev,
                    (Err(e), Err(ev)) => e == ev,
                    _ => false,
                }
            }),
    {
        let addr = derive_address(Namespace::Agent, wallet);
        let (owner, updated) = match self.agents.get(addr) {
            None => {
                return Err(OpError::AccountMissing);
            },
            Some(rec) => {
                if rec.wallet != signer {
                    return Err(OpError::Program(ErrorCode::UnauthorizedAgent));
                }
                (
                    rec.wallet,
                    AgentAccount {
                        wallet: rec.wallet,
                        metadata_uri: metadata_uri.clone(),
                        created_at: rec.created_at,
                        active: rec.active,
                        auto_created: rec.auto_created,
                        total_weighted_rating: rec.total_weighted_rating,
                        total_weight: rec.total_weight,
                        last_update: now,
                    },
                )
            },
        };
        let ghost r1 = AgentAccountV { metadata_uri: metadata_uri@, last_update: now, ..old(self)@.agents[addr] };
        match self.agents.set(addr, updated) {
            Ok(()) => {
                proof {
                    lemma_insert_agent_preserves_wf(old(self)@, addr, r1);
                }
                Ok(AgentUpdated { wallet: owner, metadata_uri })
            },
            Err(_) => unreached(),
        }
    }

    /// Deactivate an agent, exactly as `spec_deactivate_agent` rules.
    pub fn deactivate_agent(&mut self, wallet: Key, signer: Key, now: i64) -> (r: Result<
        AgentDeactivated,
        OpError,
    >)
        requires
            old(self).wf(),
        ensures
            final(self).wf(),
            ({
                let (s2, out) = spec_deactivate_agent(old(self)@, wallet, signer, now);
                &&& final(self)@ == s2
                &&& r == out
            }),
    {
        let addr = derive_address(Namespace::Agent, wallet);
        let (owner, updated) = match self.agents.get(addr) {
            None => {
                return Err(OpError::AccountMissing);
            },
            Some(rec) => {
                if rec.wallet != signer {
                    return Err(OpError::Program(ErrorCode::UnauthorizedAgent));
                }
                (
                    rec.wallet,
                    AgentAccount {
                        wallet: rec.wallet,
                        metadata_uri: rec.metadata_uri.clone(),
                        created_at: rec.created_at,
                        active: false,
                        auto_created: rec.auto_created,
                        total_weighted_rating: rec.total_weighted_rating,
                        total_weight: rec.total_weight,
                        last_update: now,
                    },
                )
            },
        };
        let ghost r1 = AgentAccountV { active: false, last_update: now, ..old(self)@.agents[addr] };
        match self.agents.set(addr, updated) {
            Ok(()) => {
                proof {
                    lemma_insert_agent_preserves_wf(old(self)@, addr, r1);
                }
                Ok(AgentDeactivated { wallet: owner })
            },
            Err(_) => unreached(),
        }
    }

    /// Register a verified job/payment pairing, exactly as
    /// `spec_register_job` rules.
    pub fn register_job(
        &mut self,
        client_wallet: Key,
        agent_wallet: Key,
        payment_tx: Key,
        client_token: TokenAccountInfo,
        agent_token: TokenAccountInfo,
        token_program: Key,
        transfer_instruction_index: u8,
        instructions: &Vec<TransferInstruction>,
        now: i64,
    ) -> (r: Result<(Option<AgentAutoCreated>, JobRegistered), OpError>)
        requires
            old(self).wf(),
        ensures
            final(self).wf(),
            ({
                let (s2, out) = spec_register_job(
                    old(self)@,
                    client_wallet,
                    agent_wallet,
                    payment_tx,
                    client_token,
                    agent_token,
                    token_program,
                    transfer_instruction_index,
                    instructions@.map_values(|ix: TransferInstruction| ix@),
                    now,
                );
                &&& final(self)@ == s2
                &&& r == out
            }),
    {
        match check_token_accounts(client_wallet, agent_wallet, client_token, agent_token) {
            Err(e) => {
                return Err(OpError::Program(e));
            },
            Ok(()) => (),
        }
        let idx = transfer_instruction_index as usize;
        if idx >= instructions.len() {
            return Err(OpError::MissingInstruction);
        }
        let amount = match verify_transfer(
            &instructions[idx],
            token_program,
            client_token.address,
            agent_token.address,
            client_wallet,
        ) {
            Err(e) => {
                return Err(OpError::Program(e));
            },
            Ok(amount) => amount,
        };
        let jaddr = derive_address(Namespace::Job, payment_tx);
        if self.jobs.contains(jaddr) {
            return Err(OpError::AccountInUse);
        }
        let aaddr = derive_address(Namespace::Agent, agent_wallet);
        // Lazy creation is one atomic check-and-set: attempt the write, and
        // take a collision to mean the agent already has a record.
        let record = AgentAccount::auto_create(agent_wallet, now);
        proof {
            if !old(self)@.agents.contains_key(aaddr) {
                lemma_insert_agent_preserves_wf(
                    old(self)@,
                    aaddr,
                    spec_agent_record(agent_wallet, Seq::empty(), true, now),
                );
            }
        }
        let auto = match self.agents.create(aaddr, record) {
            Ok(()) => true,
            Err(_) => false,
        };
        let job = JobRecord {
            job_id: jaddr,
            client_wallet,
            agent_wallet,
            payment_tx,
            payment_amount: amount,
            created_at: now,
        };
        match self.jobs.create(jaddr, job) {
            Ok(()) => {
                proof {
                    lemma_insert_job_preserves_wf(
                        RegistryView {
                            agents: self@.agents,
                            jobs: old(self)@.jobs,
                            feedbacks: old(self)@.feedbacks,
                        },
                        jaddr,
                        job,
                    );
                }
                Ok(
                    (
                        if auto {
                            Some(AgentAutoCreated { wallet: agent_wallet })
                        } else {
                            None
                        },
                        JobRegistered {
                            job_id: jaddr,
                            agent_wallet,
                            client_wallet,
                            payment_amount: amount,
                        },
                    ),
                )
            },
            Err(_) => unreached(),
        }
    }

    /// Submit feedback for a job and fold it into the agent's aggregates,
    /// exactly as `spec_submit_feedback` rules.
    pub fn submit_feedback(
        &mut self,
        client_wallet: Key,
        proof_of_payment: Key,
        rating: u8,
        comment_uri: Option<String>,
        now: i64,
    ) -> (r: Result<(FeedbackSubmitted, ReputationUpdated), OpError>)
        requires
            old(self).wf(),
        ensures
            final(self).wf(),
            ({
                let (s2, out) = spec_submit_feedback(
                    old(self)@,
                    client_wallet,
                    proof_of_payment,
                    rating,
                    match comment_uri {
                        Some(c) => Some(c@),
                        None => None,
                    },
                    now,
                );
                &&& final(self)@ == s2
                &&& r == out
            }),
    {
        if !(1 <= rating && rating <= 5) {
            return Err(OpError::Program(ErrorCode::InvalidRating));
        }
        let jaddr = derive_address(Namespace::Job, proof_of_payment);
        let job = match self.jobs.get(jaddr) {
            None => {
                return Err(OpError::AccountMissing);
            },
            Some(j) => *j,
        };
        match check_feedback(&job, client_wallet, proof_of_payment, rating) {
            Err(e) => {
                return Err(OpError::Program(e));
            },
            Ok(()) => (),
        }
        let faddr = derive_address(Namespace::Feedback, proof_of_payment);
        if self.feedbacks.contains(faddr) {
            return Err(OpError::AccountInUse);
        }
        let aaddr = derive_address(Namespace::Agent, job.agent_wallet);
        let mut agent = match self.agents.get(aaddr) {
            None => {
                return Err(OpError::AccountMissing);
            },
            Some(a) => a.duplicate(),
        };
        match agent.fold_rating(rating, job.payment_amount, now) {
            Err(e) => {
                return Err(e);
            },
            Ok(()) => (),
        }
        let new_twr = agent.total_weighted_rating;
        let new_tw = agent.total_weight;
        let agent_wallet = agent.wallet;
        let fb = FeedbackRecord {
            feedback_id: faddr,
            job_id: job.job_id,
            client_wallet,
            agent_wallet: job.agent_wallet,
            rating,
            comment_uri,
            proof_of_payment,
            payment_amount: job.payment_amount,
            timestamp: now,
        };
        let ghost fbv = fb@;
        match self.feedbacks.create(faddr, fb) {
            Ok(()) => (),
            Err(_) => unreached(),
        }
        let ghost agent2 = agent@;
        match self.agents.set(aaddr, agent) {
            Ok(()) => (),
            Err(_) => unreached(),
        }
        proof {
            lemma_submit_feedback_preserves_wf(old(self)@, aaddr, agent2, faddr, fbv);
        }
        Ok(
            (
                FeedbackSubmitted {
                    job_id: job.job_id,
                    client_wallet,
                    agent_wallet: job.agent_wallet,
                    rating,
                    payment_amount: job.payment_amount,
                },
                ReputationUpdated {
                    agent_wallet,
                    total_weighted_rating: new_twr,
                    total_weight: new_tw,
                },
            ),
        )
    }
}

/// Inserting or overwriting an agent entry that satisfies the agent
/// invariant, without touching its wallet-derived address or the other
/// namespaces, preserves the registry invariant.
pub(crate) proof fn lemma_insert_agent_preserves_wf(s: RegistryView, addr: Address, r: AgentAccountV)
    requires
        wf_view(s),
        wf_agent_entry(addr, r),
    ensures
        wf_view(
            RegistryView { agents: s.agents.insert(addr, r), jobs: s.jobs, feedbacks: s.feedbacks },
        ),
{
    let s2 = RegistryView { agents: s.agents.insert(addr, r), jobs: s.jobs, feedbacks: s.feedbacks };
    assert forall|a: Address| #[trigger] s2.jobs.contains_key(a) implies wf_job_entry(
        s2,
        a,
        s2.jobs[a],
    ) by {
        assert(wf_job_entry(s, a, s.jobs[a]));
    }
    assert forall|a: Address| #[trigger] s2.feedbacks.contains_key(a) implies wf_feedback_entry(
        s2,
        a,
        s2.feedbacks[a],
    ) by {
        assert(wf_feedback_entry(s, a, s.feedbacks[a]));
    }
}

/// Inserting a fresh job entry whose agent has a record, keyed by its own
/// payment reference, preserves the registry invariant.
pub(crate) proof fn lemma_insert_job_preserves_wf(s: RegistryView, addr: Address, j: JobRecord)
    requires
        wf_view(s),
        wf_job_entry(s, addr, j),
        !s.jobs.contains_key(addr),
    ensures
        wf_view(
            RegistryView { agents: s.agents, jobs: s.jobs.insert(addr, j), feedbacks: s.feedbacks },
        ),
{
    let s2 = RegistryView { agents: s.agents, jobs: s.jobs.insert(addr, j), feedbacks: s.feedbacks };
    assert forall|a: Address| #[trigger] s2.jobs.contains_key(a) implies wf_job_entry(
        s2,
        a,
        s2.jobs[a],
    ) by {
        if a != addr {
            assert(wf_job_entry(s, a, s.jobs[a]));
        }
    }
    assert forall|a: Address| #[trigger] s2.feedbacks.contains_key(a) implies wf_feedback_entry(
        s2,
        a,
        s2.feedbacks[a],
    ) by {
        assert(wf_feedback_entry(s, a, s.feedbacks[a]));
    }
}

/// The feedback transition: overwriting the agent's aggregates and adding
/// the feedback entry copied from its job preserves the registry invariant.
pub(crate) proof fn lemma_submit_feedback_preserves_wf(
    s: RegistryView,
    aaddr: Address,
    r: AgentAccountV,
    faddr: Address,
    f: FeedbackRecordV,
)
    requires
        wf_view(s),
        wf_agent_entry(aaddr, r),
        faddr.namespace == Namespace::Feedback,
        s.jobs.contains_key(job_address(faddr.key)),
        wf_feedback_entry(s, faddr, f),
    ensures
        wf_view(
            RegistryView {
                agents: s.agents.insert(aaddr, r),
                jobs: s.jobs,
                feedbacks: s.feedbacks.insert(faddr, f),
            },
        ),
{
    let s2 = RegistryView {
        agents: s.agents.insert(aaddr, r),
        jobs: s.jobs,
        feedbacks: s.feedbacks.insert(faddr, f),
    };
    assert forall|a: Address| #[trigger] s2.jobs.contains_key(a) implies wf_job_entry(
        s2,
        a,
        s2.jobs[a],
    ) by {
        assert(wf_job_entry(s, a, s.jobs[a]));
    }
    assert forall|a: Address| #[trigger] s2.feedbacks.contains_key(a) implies wf_feedback_entry(
        s2,
        a,
        s2.feedbacks[a],
    ) by {
        if a != faddr {
            assert(wf_feedback_entry(s, a, s.feedbacks[a]));
        }
    }
}

} // verus!
