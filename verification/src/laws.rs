//! System-wide laws of the registry, proved over the transition functions.
//!
//! `RegistryOp` ranges over every operation the registry offers, and
//! `apply_ops` runs an arbitrary sequence of them, so the lemmas here speak
//! about whole lifetimes of the system: records are never lost or
//! overwritten, a record that exists blocks re-creation forever, and an
//! agent's aggregates are at every moment the exact sums of the feedback
//! that succeeded for it.

use vstd::prelude::*;

use crate::Key;
use crate::agent_address;
use crate::feedback_address;
use crate::job_address;
use crate::errors::ErrorCode;
use crate::errors::OpError;
use crate::events::AgentRegisteredV;
use crate::events::FeedbackSubmitted;
use crate::events::ReputationUpdated;
use crate::registry::RegistryView;
use crate::registry::spec_deactivate_agent;
use crate::registry::spec_register_agent;
use crate::registry::spec_register_job;
use crate::registry::spec_submit_feedback;
use crate::registry::spec_update_agent;
use crate::registry::wf_view;
use crate::transfer::TokenAccountInfo;
use crate::transfer::TransferInstructionView;
use crate::transfer::spec_verify_transfer;

verus! {

/// One invocation of a registry operation, with all of its inputs.
pub enum RegistryOp {
    RegisterAgent { wallet: Key, metadata_uri: Seq<char>, now: i64 },
    UpdateAgent { wallet: Key, signer: Key, metadata_uri: Seq<char>, now: i64 },
    DeactivateAgent { wallet: Key, signer: Key, now: i64 },
    RegisterJob {
        client_wallet: Key,
        agent_wallet: Key,
        payment_tx: Key,
        client_token: TokenAccountInfo,
        agent_token: TokenAccountInfo,
        token_program: Key,
        transfer_instruction_index: u8,
        instructions: Seq<TransferInstructionView>,
        now: i64,
    },
    SubmitFeedback {
        client_wallet: Key,
        proof_of_payment: Key,
        rating: u8,
        comment_uri: Option<Seq<char>>,
        now: i64,
    },
}

/// The state an operation leaves the registry in (on failure, the state it
/// found).
pub open spec fn apply_op(s: RegistryView, op: RegistryOp) -> RegistryView {
    match op {
        RegistryOp::RegisterAgent { wallet, metadata_uri, now } => spec_register_agent(
            s,
            wallet,
            metadata_uri,
            now,
        ).0,
        RegistryOp::UpdateAgent { wallet, signer, metadata_uri, now } => spec_update_agent(
            s,
            wallet,
            signer,
            metadata_uri,
            now,
        ).0,
        RegistryOp::DeactivateAgent { wallet, signer, now } => spec_deactivate_agent(
            s,
            wallet,
            signer,
            now,
        ).0,
        RegistryOp::RegisterJob {
            client_wallet,
            agent_wallet,
            payment_tx,
            client_token,
            agent_token,
            token_program,
            transfer_instruction_index,
            instructions,
            now,
        } => spec_register_job(
            s,
            client_wallet,
            agent_wallet,
            payment_tx,
            client_token,
            agent_token,
            token_program,
            transfer_instruction_index,
            instructions,
            now,
        ).0,
        RegistryOp::SubmitFeedback { client_wallet, proof_of_payment, rating, comment_uri, now } => spec_submit_feedback(
            s,
            client_wallet,
            proof_of_payment,
            rating,
            comment_uri,
            now,
        ).0,
    }
}

/// The state a sequence of operations leaves the registry in.
pub open spec fn apply_ops(s: RegistryView, ops: Seq<RegistryOp>) -> RegistryView
    decreases ops.len(),
{
    if ops.len() == 0 {
        s
    } else {
        apply_ops(apply_op(s, ops.first()), ops.drop_first())
    }
}

/// Every operation preserves the registry invariant.
pub proof fn lemma_op_preserves_wf(s: RegistryView, op: RegistryOp)
    requires
        wf_view(s),
    ensures
        wf_view(apply_op(s, op)),
{
    match op {
        RegistryOp::RegisterAgent { wallet, metadata_uri, now } => {
            if !s.agents.contains_key(agent_address(wallet)) {
                crate::registry::lemma_insert_agent_preserves_wf(
                    s,
                    agent_address(wallet),
                    crate::registry::spec_agent_record(wallet, metadata_uri, false, now),
                );
            }
        },
        RegistryOp::UpdateAgent { wallet, signer, metadata_uri, now } => {
            let addr = agent_address(wallet);
            if s.agents.contains_key(addr) && s.agents[addr].wallet == signer {
                crate::registry::lemma_insert_agent_preserves_wf(
                    s,
                    addr,
                    crate::records::AgentAccountV {
                        metadata_uri,
                        last_update: now,
                        ..s.agents[addr]
                    },
                );
            }
        },
        RegistryOp::DeactivateAgent { wallet, signer, now } => {
            let addr = agent_address(wallet);
            if s.agents.contains_key(addr) && s.agents[addr].wallet == signer {
                crate::registry::lemma_insert_agent_preserves_wf(
                    s,
                    addr,
                    crate::records::AgentAccountV {
                        active: false,
                        last_update: now,
                        ..s.agents[addr]
                    },
                );
            }
        },
        RegistryOp::RegisterJob {
            client_wallet,
            agent_wallet,
            payment_tx,
            client_token,
            agent_token,
            token_program,
            transfer_instruction_index,
            instructions,
            now,
        } => {
            let (s2, out) = spec_register_job(
                s,
                client_wallet,
                agent_wallet,
                payment_tx,
                client_token,
                agent_token,
                token_program,
                transfer_instruction_index,
                instructions,
                now,
            );
            if out is Ok {
                let jaddr = job_address(payment_tx);
                let aaddr = agent_address(agent_wallet);
                let amount = spec_verify_transfer(
                    instructions[transfer_instruction_index as int],
                    token_program,
                    client_token.address,
                    agent_token.address,
                    client_wallet,
                )->Ok_0;
                if !s.agents.contains_key(aaddr) {
                    crate::registry::lemma_insert_agent_preserves_wf(
                        s,
                        aaddr,
                        crate::registry::spec_agent_record(agent_wallet, Seq::empty(), true, now),
                    );
                }
                let sa = RegistryView {
                    agents: apply_op(s, op).agents,
                    jobs: s.jobs,
                    feedbacks: s.feedbacks,
                };
                crate::registry::lemma_insert_job_preserves_wf(
                    sa,
                    jaddr,
                    crate::records::JobRecord {
                        job_id: jaddr,
                        client_wallet,
                        agent_wallet,
                        payment_tx,
                        payment_amount: amount,
                        created_at: now,
                    },
                );
            }
        },
        RegistryOp::SubmitFeedback { client_wallet, proof_of_payment, rating, comment_uri, now } => {
            let (s2, out) = spec_submit_feedback(
                s,
                client_wallet,
                proof_of_payment,
                rating,
                comment_uri,
                now,
            );
            if out is Ok {
                let jaddr = job_address(proof_of_payment);
                let faddr = feedback_address(proof_of_payment);
                let job = s.jobs[jaddr];
                let aaddr = agent_address(job.agent_wallet);
                let agent = s.agents[aaddr];
                crate::registry::lemma_submit_feedback_preserves_wf(
                    s,
                    aaddr,
                    s2.agents[aaddr],
                    faddr,
                    s2.feedbacks[faddr],
                );
            }
        },
    }
}

/// No operation removes a record, re-keys an agent, or rewrites a job or
/// feedback record; agent aggregates never shrink.  Records are append-only
/// for the lifetime of the system.
pub proof fn lemma_op_preserves_records(s: RegistryView, op: RegistryOp)
    requires
        wf_view(s),
    ensures
        forall|a: crate::Address| #[trigger]
            s.agents.contains_key(a) ==> apply_op(s, op).agents.contains_key(a) && apply_op(
                s,
                op,
            ).agents[a].wallet == s.agents[a].wallet && apply_op(s, op).agents[a].created_at
                == s.agents[a].created_at && apply_op(s, op).agents[a].total_weighted_rating
                >= s.agents[a].total_weighted_rating && apply_op(s, op).agents[a].total_weight
                >= s.agents[a].total_weight,
        forall|a: crate::Address| #[trigger]
            s.jobs.contains_key(a) ==> apply_op(s, op).jobs.contains_key(a) && apply_op(
                s,
                op,
            ).jobs[a] == s.jobs[a],
        forall|a: crate::Address| #[trigger]
            s.feedbacks.contains_key(a) ==> apply_op(s, op).feedbacks.contains_key(a) && apply_op(
                s,
                op,
            ).feedbacks[a] == s.feedbacks[a],
{
}

/// `lemma_op_preserves_wf` and `lemma_op_preserves_records`, extended to a
/// whole lifetime of operations.
pub proof fn lemma_ops_preserve_records(s: RegistryView, ops: Seq<RegistryOp>)
    requires
        wf_view(s),
    ensures
        wf_view(apply_ops(s, ops)),
        forall|a: crate::Address| #[trigger]
            s.agents.contains_key(a) ==> apply_ops(s, ops).agents.contains_key(a) && apply_ops(
                s,
                ops,
            ).agents[a].wallet == s.agents[a].wallet,
        forall|a: crate::Address| #[trigger]
            s.jobs.contains_key(a) ==> apply_ops(s, ops).jobs.contains_key(a) && apply_ops(
                s,
                ops,
            ).jobs[a] == s.jobs[a],
        forall|a: crate::Address| #[trigger]
            s.feedbacks.contains_key(a) ==> apply_ops(s, ops).feedbacks.contains_key(a)
                && apply_ops(s, ops).feedbacks[a] == s.feedbacks[a],
    decreases ops.len(),
{
    if ops.len() > 0 {
        lemma_op_preserves_wf(s, ops.first());
        lemma_op_preserves_records(s, ops.first());
        lemma_ops_preserve_records(apply_op(s, ops.first()), ops.drop_first());
    }
}

/// At most one agent record can ever exist per identity: once an identity
/// is registered, its record survives every later operation, and a renewed
/// registration attempt at any later moment fails with the collision error
/// and changes nothing.
pub proof fn lemma_agent_record_unique(
    s: RegistryView,
    ops: Seq<RegistryOp>,
    wallet: Key,
    metadata_uri: Seq<char>,
    now: i64,
)
    requires
        wf_view(s),
        s.agents.contains_key(agent_address(wallet)),
    ensures
        ({
            let s2 = apply_ops(s, ops);
            &&& s2.agents.contains_key(agent_address(wallet))
            &&& spec_register_agent(s2, wallet, metadata_uri, now) == (
                s2,
                Err::<AgentRegisteredV, OpError>(OpError::AccountInUse),
            )
        }),
{
    lemma_ops_preserve_records(s, ops);
}

/// At most one job record can ever exist per payment reference: once a job
/// is registered, its record survives unchanged, and a renewed registration
/// with the same reference at any later moment fails — with the collision
/// error whenever the payment checks themselves pass — and changes nothing.
pub proof fn lemma_job_record_unique(
    s: RegistryView,
    ops: Seq<RegistryOp>,
    client_wallet: Key,
    agent_wallet: Key,
    payment_tx: Key,
    client_token: TokenAccountInfo,
    agent_token: TokenAccountInfo,
    token_program: Key,
    transfer_instruction_index: u8,
    instructions: Seq<TransferInstructionView>,
    now: i64,
)
    requires
        wf_view(s),
        s.jobs.contains_key(job_address(payment_tx)),
    ensures
        ({
            let s2 = apply_ops(s, ops);
            let (s3, out) = spec_register_job(
                s2,
                client_wallet,
                agent_wallet,
                payment_tx,
                client_token,
                agent_token,
                token_program,
                transfer_instruction_index,
                instructions,
                now,
            );
            &&& s3 == s2
            &&& out is Err
            &&& (client_token.mint == agent_token.mint && client_token.owner == client_wallet
                && agent_token.owner == agent_wallet && transfer_instruction_index
                < instructions.len() && spec_verify_transfer(
                instructions[transfer_instruction_index as int],
                token_program,
                client_token.address,
                agent_token.address,
                client_wallet,
            ) is Ok) ==> out == Err::<
                (Option<crate::events::AgentAutoCreated>, crate::events::JobRegistered),
                OpError,
            >(OpError::AccountInUse)
        }),
{
    lemma_ops_preserve_records(s, ops);
}

/// At most one feedback record can ever exist per job: once feedback is
/// recorded, it survives unchanged, and a renewed submission for the same
/// job at any later moment fails — with the collision error whenever the
/// caller's own inputs pass their checks — and changes nothing.
pub proof fn lemma_feedback_record_unique(
    s: RegistryView,
    ops: Seq<RegistryOp>,
    client_wallet: Key,
    proof_of_payment: Key,
    rating: u8,
    comment_uri: Option<Seq<char>>,
    now: i64,
)
    requires
        wf_view(s),
        s.feedbacks.contains_key(feedback_address(proof_of_payment)),
    ensures
        ({
            let s2 = apply_ops(s, ops);
            let (s3, out) = spec_submit_feedback(
                s2,
                client_wallet,
                proof_of_payment,
                rating,
                comment_uri,
                now,
            );
            &&& s3 == s2
            &&& out is Err
            &&& (1 <= rating <= 5 && s2.jobs.contains_key(job_address(proof_of_payment))
                && s2.jobs[job_address(proof_of_payment)].client_wallet == client_wallet) ==> out
                == Err::<(FeedbackSubmitted, ReputationUpdated), OpError>(OpError::AccountInUse)
        }),
{
    lemma_ops_preserve_records(s, ops);
    let s2 = apply_ops(s, ops);
    if 1 <= rating <= 5 && s2.jobs.contains_key(job_address(proof_of_payment))
        && s2.jobs[job_address(proof_of_payment)].client_wallet == client_wallet {
        assert(s2.jobs[job_address(proof_of_payment)].payment_tx == proof_of_payment);
    }
}

/// What one operation adds to the weighted-rating counter of the agent
/// identified by `w`: the rating times the job's payment amount if the
/// operation is a feedback submission that succeeds against `s` for a job
/// of that agent, and nothing otherwise.
pub open spec fn op_rating_gain(s: RegistryView, op: RegistryOp, w: Key) -> int {
    match op {
        RegistryOp::SubmitFeedback { client_wallet, proof_of_payment, rating, comment_uri, now } => {
            if spec_submit_feedback(s, client_wallet, proof_of_payment, rating, comment_uri, now).1
                is Ok && s.jobs.contains_key(job_address(proof_of_payment)) && s.jobs[job_address(
                proof_of_payment,
            )].agent_wallet == w {
                rating * s.jobs[job_address(proof_of_payment)].payment_amount
            } else {
                0
            }
        },
        _ => 0,
    }
}

/// What one operation adds to the weight counter of the agent identified by
/// `w`: the job's payment amount for a feedback submission that succeeds
/// against `s` for a job of that agent, and nothing otherwise.
pub open spec fn op_weight_gain(s: RegistryView, op: RegistryOp, w: Key) -> int {
    match op {
        RegistryOp::SubmitFeedback { client_wallet, proof_of_payment, rating, comment_uri, now } => {
            if spec_submit_feedback(s, client_wallet, proof_of_payment, rating, comment_uri, now).1
                is Ok && s.jobs.contains_key(job_address(proof_of_payment)) && s.jobs[job_address(
                proof_of_payment,
            )].agent_wallet == w {
                s.jobs[job_address(proof_of_payment)].payment_amount as int
            } else {
                0
            }
        },
        _ => 0,
    }
}

/// The sum of `op_rating_gain` over a sequence of operations, each taken
/// against the state it actually runs in.
pub open spec fn ops_rating_gain(s: RegistryView, ops: Seq<RegistryOp>, w: Key) -> int
    decreases ops.len(),
{
    if ops.len() == 0 {
        0
    } else {
        op_rating_gain(s, ops.first(), w) + ops_rating_gain(
            apply_op(s, ops.first()),
            ops.drop_first(),
            w,
        )
    }
}

/// The sum of `op_weight_gain` over a sequence of operations.
pub open spec fn ops_weight_gain(s: RegistryView, ops: Seq<RegistryOp>, w: Key) -> int
    decreases ops.len(),
{
    if ops.len() == 0 {
        0
    } else {
        op_weight_gain(s, ops.first(), w) + ops_weight_gain(
            apply_op(s, ops.first()),
            ops.drop_first(),
            w,
        )
    }
}

/// One operation moves an agent's aggregates by exactly its gain.
proof fn lemma_op_aggregates_exact(s: RegistryView, op: RegistryOp, w: Key)
    requires
        wf_view(s),
        s.agents.contains_key(agent_address(w)),
    ensures
        apply_op(s, op).agents.contains_key(agent_address(w)),
        apply_op(s, op).agents[agent_address(w)].total_weighted_rating == s.agents[agent_address(
            w,
        )].total_weighted_rating + op_rating_gain(s, op, w),
        apply_op(s, op).agents[agent_address(w)].total_weight == s.agents[agent_address(
            w,
        )].total_weight + op_weight_gain(s, op, w),
{
    lemma_op_preserves_records(s, op);
}

/// An agent's aggregates are exact sums: after any sequence of operations,
/// its weighted-rating counter equals its starting value plus
/// `Σ rating_i * amount_i` over exactly the feedback submissions that
/// succeeded for its jobs, and its weight counter likewise equals its
/// starting value plus `Σ amount_i`.  Started from a freshly created record
/// (both counters zero) the counters are the sums themselves, and the
/// average the host reports is their quotient.
pub proof fn lemma_weighted_aggregates_exact(s: RegistryView, ops: Seq<RegistryOp>, w: Key)
    requires
        wf_view(s),
        s.agents.contains_key(agent_address(w)),
    ensures
        apply_ops(s, ops).agents.contains_key(agent_address(w)),
        apply_ops(s, ops).agents[agent_address(w)].total_weighted_rating == s.agents[agent_address(
            w,
        )].total_weighted_rating + ops_rating_gain(s, ops, w),
        apply_ops(s, ops).agents[agent_address(w)].total_weight == s.agents[agent_address(
            w,
        )].total_weight + ops_weight_gain(s, ops, w),
    decreases ops.len(),
{
    if ops.len() > 0 {
        lemma_op_aggregates_exact(s, ops.first(), w);
        lemma_op_preserves_wf(s, ops.first());
        lemma_weighted_aggregates_exact(apply_op(s, ops.first()), ops.drop_first(), w);
    }
}

/// The payment-weighted average is exact: an agent registered with zeroed
/// counters has, after any sequence of operations, a weighted-rating
/// counter of exactly `Σ rating_i * amount_i` and a weight counter of
/// exactly `Σ amount_i`, summed over the feedback submissions that
/// succeeded for its jobs; the average the host reports is their quotient.
pub proof fn lemma_aggregates_from_registration(
    s: RegistryView,
    ops: Seq<RegistryOp>,
    wallet: Key,
    metadata_uri: Seq<char>,
    now: i64,
)
    requires
        wf_view(s),
        !s.agents.contains_key(agent_address(wallet)),
    ensures
        ({
            let s1 = spec_register_agent(s, wallet, metadata_uri, now).0;
            let s2 = apply_ops(s1, ops);
            &&& s2.agents.contains_key(agent_address(wallet))
            &&& s2.agents[agent_address(wallet)].total_weighted_rating == ops_rating_gain(
                s1,
                ops,
                wallet,
            )
            &&& s2.agents[agent_address(wallet)].total_weight == ops_weight_gain(s1, ops, wallet)
        }),
{
    let op = RegistryOp::RegisterAgent { wallet, metadata_uri, now };
    lemma_op_preserves_wf(s, op);
    let s1 = spec_register_agent(s, wallet, metadata_uri, now).0;
    lemma_weighted_aggregates_exact(s1, ops, wallet);
}

/// An out-of-range rating is always rejected with the rating-range error
/// and leaves the registry untouched, whatever the other inputs and
/// whatever the state.
pub proof fn lemma_rating_range_enforced(
    s: RegistryView,
    client_wallet: Key,
    proof_of_payment: Key,
    rating: u8,
    comment_uri: Option<Seq<char>>,
    now: i64,
)
    requires
        rating < 1 || rating > 5,
    ensures
        spec_submit_feedback(s, client_wallet, proof_of_payment, rating, comment_uri, now) == (
            s,
            Err::<(FeedbackSubmitted, ReputationUpdated), OpError>(
                OpError::Program(ErrorCode::InvalidRating),
            ),
        ),
{
}

/// Feedback from anyone but the job's recorded client is rejected with the
/// authorization error, and the agent's record — its aggregates included —
/// is left exactly as it was.
pub proof fn lemma_feedback_requires_client(
    s: RegistryView,
    client_wallet: Key,
    proof_of_payment: Key,
    rating: u8,
    comment_uri: Option<Seq<char>>,
    now: i64,
)
    requires
        1 <= rating <= 5,
        s.jobs.contains_key(job_address(proof_of_payment)),
        s.jobs[job_address(proof_of_payment)].client_wallet != client_wallet,
    ensures
        spec_submit_feedback(s, client_wallet, proof_of_payment, rating, comment_uri, now) == (
            s,
            Err::<(FeedbackSubmitted, ReputationUpdated), OpError>(
                OpError::Program(ErrorCode::UnauthorizedClient),
            ),
        ),
{
}


} // verus!
