use trustless::Key;
use trustless::Namespace;
use trustless::derive_address;
use trustless::errors::ErrorCode;
use trustless::errors::OpError;
use trustless::records::AgentAccount;
use trustless::records::JobRecord;
use trustless::records::check_feedback;
use trustless::registry::Registry;
use trustless::transfer::TokenAccountInfo;
use trustless::transfer::TransferInstruction;
use trustless::transfer::verify_transfer;

fn key(n: u64) -> Key {
    Key::new(n, n.wrapping_mul(7), n.wrapping_add(100), 1)
}

fn transfer_data(amount: u64) -> Vec<u8> {
    let mut data = vec![3u8];
    data.extend_from_slice(&amount.to_le_bytes());
    data
}

struct Setup {
    client: Key,
    agent: Key,
    client_token: TokenAccountInfo,
    agent_token: TokenAccountInfo,
    token_program: Key,
}

fn setup() -> Setup {
    let client = key(1);
    let agent = key(2);
    let mint = key(3);
    Setup {
        client,
        agent,
        client_token: TokenAccountInfo { address: key(4), mint, owner: client },
        agent_token: TokenAccountInfo { address: key(5), mint, owner: agent },
        token_program: key(6),
    }
}

fn transfer_ix(s: &Setup, amount: u64) -> TransferInstruction {
    TransferInstruction {
        program_id: s.token_program,
        data: transfer_data(amount),
        accounts: vec![s.client_token.address, s.agent_token.address, s.client],
    }
}

fn register_job_simple(
    r: &mut Registry,
    s: &Setup,
    payment_tx: Key,
    amount: u64,
    now: i64,
) -> Result<
    (Option<trustless::events::AgentAutoCreated>, trustless::events::JobRegistered),
    OpError,
> {
    let instructions = vec![transfer_ix(s, amount)];
    r.register_job(
        s.client,
        s.agent,
        payment_tx,
        s.client_token,
        s.agent_token,
        s.token_program,
        0,
        &instructions,
        now,
    )
}

fn narrowed_average(weighted: u128, weight: u128) -> f32 {
    (weighted as f64 / weight as f64) as f32
}

#[test]
fn agent_registration_creates_record() {
    let mut r = Registry::new();
    let wallet = key(10);
    let ev = r.register_agent(wallet, "ipfs://a".to_string(), 50).unwrap();
    assert_eq!(ev.wallet, wallet);
    assert_eq!(ev.metadata_uri, "ipfs://a");
    let rec = r.get_agent(wallet).unwrap();
    assert_eq!(rec.wallet, wallet);
    assert_eq!(rec.metadata_uri, "ipfs://a");
    assert_eq!(rec.created_at, 50);
    assert!(rec.active);
    assert!(!rec.auto_created);
    assert_eq!(rec.total_weighted_rating, 0);
    assert_eq!(rec.total_weight, 0);
    assert_eq!(rec.last_update, 50);
}

#[test]
fn second_agent_registration_fails() {
    let mut r = Registry::new();
    let wallet = key(10);
    r.register_agent(wallet, "ipfs://a".to_string(), 50).unwrap();
    let err = r.register_agent(wallet, "ipfs://b".to_string(), 60).unwrap_err();
    assert_eq!(err, OpError::AccountInUse);
    let rec = r.get_agent(wallet).unwrap();
    assert_eq!(rec.metadata_uri, "ipfs://a");
    assert_eq!(rec.created_at, 50);
}

#[test]
fn update_agent_changes_metadata_only() {
    let mut r = Registry::new();
    let wallet = key(10);
    r.register_agent(wallet, "ipfs://a".to_string(), 50).unwrap();
    let ev = r.update_agent(wallet, wallet, "ipfs://b".to_string(), 70).unwrap();
    assert_eq!(ev.wallet, wallet);
    assert_eq!(ev.metadata_uri, "ipfs://b");
    let rec = r.get_agent(wallet).unwrap();
    assert_eq!(rec.metadata_uri, "ipfs://b");
    assert_eq!(rec.created_at, 50);
    assert_eq!(rec.last_update, 70);
    assert!(rec.active);
}

#[test]
fn update_agent_requires_owner() {
    let mut r = Registry::new();
    let wallet = key(10);
    r.register_agent(wallet, "ipfs://a".to_string(), 50).unwrap();
    let err = r.update_agent(wallet, key(11), "ipfs://b".to_string(), 70).unwrap_err();
    assert_eq!(err, OpError::Program(ErrorCode::UnauthorizedAgent));
    assert_eq!(r.get_agent(wallet).unwrap().metadata_uri, "ipfs://a");
}

#[test]
fn update_agent_missing_record() {
    let mut r = Registry::new();
    let err = r.update_agent(key(10), key(10), "ipfs://b".to_string(), 70).unwrap_err();
    assert_eq!(err, OpError::AccountMissing);
}

#[test]
fn deactivate_agent_clears_flag() {
    let mut r = Registry::new();
    let wallet = key(10);
    r.register_agent(wallet, "ipfs://a".to_string(), 50).unwrap();
    let ev = r.deactivate_agent(wallet, wallet, 80).unwrap();
    assert_eq!(ev.wallet, wallet);
    let rec = r.get_agent(wallet).unwrap();
    assert!(!rec.active);
    assert_eq!(rec.last_update, 80);
    assert_eq!(rec.metadata_uri, "ipfs://a");
}

#[test]
fn deactivate_agent_requires_owner() {
    let mut r = Registry::new();
    let wallet = key(10);
    r.register_agent(wallet, "ipfs://a".to_string(), 50).unwrap();
    let err = r.deactivate_agent(wallet, key(11), 80).unwrap_err();
    assert_eq!(err, OpError::Program(ErrorCode::UnauthorizedAgent));
    assert!(r.get_agent(wallet).unwrap().active);
}

#[test]
fn deactivated_agent_still_receives_jobs() {
    let mut r = Registry::new();
    let s = setup();
    r.register_agent(s.agent, "ipfs://a".to_string(), 50).unwrap();
    r.deactivate_agent(s.agent, s.agent, 60).unwrap();
    let (auto, _ev) = register_job_simple(&mut r, &s, key(40), 1_000, 70).unwrap();
    assert!(auto.is_none());
    r.submit_feedback(s.client, key(40), 4, None, 80).unwrap();
    assert_eq!(r.get_agent(s.agent).unwrap().total_weight, 1_000);
}

#[test]
fn paid_job_and_top_rating() {
    let mut r = Registry::new();
    let s = setup();
    r.register_agent(s.agent, "ipfs://a".to_string(), 10).unwrap();
    let payment = key(40);
    let (auto, ev) = register_job_simple(&mut r, &s, payment, 1_000_000, 20).unwrap();
    assert!(auto.is_none());
    assert_eq!(ev.agent_wallet, s.agent);
    assert_eq!(ev.client_wallet, s.client);
    assert_eq!(ev.payment_amount, 1_000_000);
    assert_eq!(ev.job_id, derive_address(Namespace::Job, payment));

    let job = r.get_job(payment).unwrap();
    assert_eq!(job.client_wallet, s.client);
    assert_eq!(job.agent_wallet, s.agent);
    assert_eq!(job.payment_tx, payment);
    assert_eq!(job.payment_amount, 1_000_000);
    assert_eq!(job.created_at, 20);
    assert_eq!(job.job_id, derive_address(Namespace::Job, payment));

    let (fev, rev) = r.submit_feedback(s.client, payment, 5, None, 30).unwrap();
    assert_eq!(fev.rating, 5);
    assert_eq!(fev.payment_amount, 1_000_000);
    assert_eq!(fev.agent_wallet, s.agent);
    assert_eq!(rev.agent_wallet, s.agent);
    assert_eq!(rev.total_weighted_rating, 5_000_000);
    assert_eq!(rev.total_weight, 1_000_000);

    let rec = r.get_agent(s.agent).unwrap();
    assert_eq!(rec.total_weighted_rating, 5_000_000);
    assert_eq!(rec.total_weight, 1_000_000);
    assert_eq!(narrowed_average(rec.total_weighted_rating, rec.total_weight), 5.0f32);
}

#[test]
fn second_job_shifts_average() {
    let mut r = Registry::new();
    let s = setup();
    r.register_agent(s.agent, "ipfs://a".to_string(), 10).unwrap();
    register_job_simple(&mut r, &s, key(40), 1_000_000, 20).unwrap();
    r.submit_feedback(s.client, key(40), 5, None, 30).unwrap();
    register_job_simple(&mut r, &s, key(41), 500_000, 40).unwrap();
    r.submit_feedback(s.client, key(41), 1, None, 50).unwrap();

    let rec = r.get_agent(s.agent).unwrap();
    assert_eq!(rec.total_weighted_rating, 5_500_000);
    assert_eq!(rec.total_weight, 1_500_000);
    assert_eq!(narrowed_average(rec.total_weighted_rating, rec.total_weight), 3.666_666_7f32);
}

#[test]
fn weighted_average_many_events() {
    let mut r = Registry::new();
    let s = setup();
    let ratings: [u8; 4] = [5, 1, 3, 2];
    let amounts: [u64; 4] = [10, 1_000, 77, 300_000];
    let mut weighted: u128 = 0;
    let mut weight: u128 = 0;
    for i in 0..4 {
        register_job_simple(&mut r, &s, key(60 + i as u64), amounts[i], 20).unwrap();
        r.submit_feedback(s.client, key(60 + i as u64), ratings[i], None, 30).unwrap();
        weighted += ratings[i] as u128 * amounts[i] as u128;
        weight += amounts[i] as u128;
    }
    let rec = r.get_agent(s.agent).unwrap();
    assert_eq!(rec.total_weighted_rating, weighted);
    assert_eq!(rec.total_weight, weight);
    assert_eq!(rec.total_weighted_rating, 601_281);
    assert_eq!(rec.total_weight, 301_087);
}

#[test]
fn job_for_unseen_agent_creates_it_lazily() {
    let mut r = Registry::new();
    let s = setup();
    let (auto, _ev) = register_job_simple(&mut r, &s, key(40), 2_500, 20).unwrap();
    assert_eq!(auto.unwrap().wallet, s.agent);
    let rec = r.get_agent(s.agent).unwrap();
    assert!(rec.auto_created);
    assert!(rec.active);
    assert_eq!(rec.metadata_uri, "");
    assert_eq!(rec.created_at, 20);
    assert_eq!(rec.total_weight, 0);
}

#[test]
fn duplicate_job_reference_fails() {
    let mut r = Registry::new();
    let s = setup();
    register_job_simple(&mut r, &s, key(40), 1_000, 20).unwrap();
    let err = register_job_simple(&mut r, &s, key(40), 9_999, 30).unwrap_err();
    assert_eq!(err, OpError::AccountInUse);
    let job = r.get_job(key(40)).unwrap();
    assert_eq!(job.payment_amount, 1_000);
    assert_eq!(job.created_at, 20);
}

#[test]
fn job_with_wrong_program_leaves_no_trace() {
    let mut r = Registry::new();
    let s = setup();
    let mut ix = transfer_ix(&s, 1_000);
    ix.program_id = key(99);
    let instructions = vec![ix];
    let err = r
        .register_job(
            s.client,
            s.agent,
            key(40),
            s.client_token,
            s.agent_token,
            s.token_program,
            0,
            &instructions,
            20,
        )
        .unwrap_err();
    assert_eq!(err, OpError::Program(ErrorCode::InvalidTransferInstruction));
    assert!(r.get_job(key(40)).is_none());
    assert!(r.get_agent(s.agent).is_none());
}

#[test]
fn job_checks_token_accounts() {
    let mut r = Registry::new();
    let s = setup();
    let instructions = vec![transfer_ix(&s, 1_000)];

    let mut other_mint = s.agent_token;
    other_mint.mint = key(77);
    let err = r
        .register_job(
            s.client,
            s.agent,
            key(40),
            s.client_token,
            other_mint,
            s.token_program,
            0,
            &instructions,
            20,
        )
        .unwrap_err();
    assert_eq!(err, OpError::Program(ErrorCode::TokenMintMismatch));

    let mut stray_client = s.client_token;
    stray_client.owner = key(78);
    let err = r
        .register_job(
            s.client,
            s.agent,
            key(40),
            stray_client,
            s.agent_token,
            s.token_program,
            0,
            &instructions,
            20,
        )
        .unwrap_err();
    assert_eq!(err, OpError::Program(ErrorCode::InvalidClientTokenAccount));

    let mut stray_agent = s.agent_token;
    stray_agent.owner = key(79);
    let err = r
        .register_job(
            s.client,
            s.agent,
            key(40),
            s.client_token,
            stray_agent,
            s.token_program,
            0,
            &instructions,
            20,
        )
        .unwrap_err();
    assert_eq!(err, OpError::Program(ErrorCode::InvalidAgentTokenAccount));
    assert!(r.get_job(key(40)).is_none());
}

#[test]
fn job_with_missing_instruction_fails() {
    let mut r = Registry::new();
    let s = setup();
    let instructions = vec![transfer_ix(&s, 1_000)];
    let err = r
        .register_job(
            s.client,
            s.agent,
            key(40),
            s.client_token,
            s.agent_token,
            s.token_program,
            1,
            &instructions,
            20,
        )
        .unwrap_err();
    assert_eq!(err, OpError::MissingInstruction);
}

#[test]
fn feedback_requires_recorded_client() {
    let mut r = Registry::new();
    let s = setup();
    register_job_simple(&mut r, &s, key(40), 1_000, 20).unwrap();
    let err = r.submit_feedback(key(55), key(40), 5, None, 30).unwrap_err();
    assert_eq!(err, OpError::Program(ErrorCode::UnauthorizedClient));
    let rec = r.get_agent(s.agent).unwrap();
    assert_eq!(rec.total_weighted_rating, 0);
    assert_eq!(rec.total_weight, 0);
    assert!(r.get_feedback(key(40)).is_none());
}

#[test]
fn feedback_rating_bounds() {
    let mut r = Registry::new();
    let s = setup();
    register_job_simple(&mut r, &s, key(40), 1_000, 20).unwrap();
    let err = r.submit_feedback(s.client, key(40), 0, None, 30).unwrap_err();
    assert_eq!(err, OpError::Program(ErrorCode::InvalidRating));
    let err = r.submit_feedback(s.client, key(40), 6, None, 30).unwrap_err();
    assert_eq!(err, OpError::Program(ErrorCode::InvalidRating));
    let err = r.submit_feedback(s.client, key(99), 0, None, 30).unwrap_err();
    assert_eq!(err, OpError::Program(ErrorCode::InvalidRating));
    assert!(r.get_feedback(key(40)).is_none());
}

#[test]
fn feedback_for_unknown_job_fails() {
    let mut r = Registry::new();
    let err = r.submit_feedback(key(1), key(40), 3, None, 30).unwrap_err();
    assert_eq!(err, OpError::AccountMissing);
}

#[test]
fn duplicate_feedback_fails() {
    let mut r = Registry::new();
    let s = setup();
    register_job_simple(&mut r, &s, key(40), 1_000, 20).unwrap();
    r.submit_feedback(s.client, key(40), 4, Some("ipfs://c".to_string()), 30).unwrap();
    let err = r.submit_feedback(s.client, key(40), 5, None, 40).unwrap_err();
    assert_eq!(err, OpError::AccountInUse);
    let rec = r.get_agent(s.agent).unwrap();
    assert_eq!(rec.total_weighted_rating, 4_000);
    assert_eq!(rec.total_weight, 1_000);
    let fb = r.get_feedback(key(40)).unwrap();
    assert_eq!(fb.rating, 4);
    assert_eq!(fb.comment_uri.as_deref(), Some("ipfs://c"));
    assert_eq!(fb.timestamp, 30);
}

#[test]
fn feedback_record_copies_job() {
    let mut r = Registry::new();
    let s = setup();
    register_job_simple(&mut r, &s, key(40), 123_456, 20).unwrap();
    r.submit_feedback(s.client, key(40), 2, None, 30).unwrap();
    let fb = r.get_feedback(key(40)).unwrap();
    assert_eq!(fb.feedback_id, derive_address(Namespace::Feedback, key(40)));
    assert_eq!(fb.job_id, derive_address(Namespace::Job, key(40)));
    assert_eq!(fb.client_wallet, s.client);
    assert_eq!(fb.agent_wallet, s.agent);
    assert_eq!(fb.proof_of_payment, key(40));
    assert_eq!(fb.payment_amount, 123_456);
    assert_eq!(fb.comment_uri, None);
}

#[test]
fn aggregate_overflow_fails_cleanly() {
    let mut rec = AgentAccount::register(key(10), "ipfs://a".to_string(), 5);
    rec.total_weighted_rating = u128::MAX - 10;
    let err = rec.fold_rating(5, 100, 9).unwrap_err();
    assert_eq!(err, OpError::AggregateOverflow);
    assert_eq!(rec.total_weighted_rating, u128::MAX - 10);
    assert_eq!(rec.total_weight, 0);
    assert_eq!(rec.last_update, 5);

    let mut rec = AgentAccount::register(key(10), "ipfs://a".to_string(), 5);
    rec.total_weight = u128::MAX - 10;
    let err = rec.fold_rating(1, 100, 9).unwrap_err();
    assert_eq!(err, OpError::AggregateOverflow);
    assert_eq!(rec.total_weight, u128::MAX - 10);
}

#[test]
fn transfer_amount_decodes_little_endian() {
    let s = setup();
    let ix = transfer_ix(&s, 1_000_000);
    assert_eq!(ix.data, vec![3u8, 0x40, 0x42, 0x0F, 0, 0, 0, 0, 0]);
    let amount = verify_transfer(
        &ix,
        s.token_program,
        s.client_token.address,
        s.agent_token.address,
        s.client,
    )
    .unwrap();
    assert_eq!(amount, 1_000_000);

    let ix = transfer_ix(&s, u64::MAX);
    let amount = verify_transfer(
        &ix,
        s.token_program,
        s.client_token.address,
        s.agent_token.address,
        s.client,
    )
    .unwrap();
    assert_eq!(amount, u64::MAX);
}

#[test]
fn transfer_shape_checks() {
    let s = setup();

    let mut ix = transfer_ix(&s, 1_000);
    ix.data = vec![3, 1, 2, 3];
    let err = verify_transfer(
        &ix,
        s.token_program,
        s.client_token.address,
        s.agent_token.address,
        s.client,
    )
    .unwrap_err();
    assert_eq!(err, ErrorCode::InvalidTransferInstruction);

    let mut ix = transfer_ix(&s, 1_000);
    ix.data[0] = 7;
    let err = verify_transfer(
        &ix,
        s.token_program,
        s.client_token.address,
        s.agent_token.address,
        s.client,
    )
    .unwrap_err();
    assert_eq!(err, ErrorCode::InvalidTransferInstruction);

    let mut ix = transfer_ix(&s, 1_000);
    ix.accounts.pop();
    let err = verify_transfer(
        &ix,
        s.token_program,
        s.client_token.address,
        s.agent_token.address,
        s.client,
    )
    .unwrap_err();
    assert_eq!(err, ErrorCode::InvalidTransferInstruction);
}

#[test]
fn transfer_account_checks() {
    let s = setup();

    let mut ix = transfer_ix(&s, 1_000);
    ix.accounts[0] = key(90);
    let err = verify_transfer(
        &ix,
        s.token_program,
        s.client_token.address,
        s.agent_token.address,
        s.client,
    )
    .unwrap_err();
    assert_eq!(err, ErrorCode::TransferSourceMismatch);

    let mut ix = transfer_ix(&s, 1_000);
    ix.accounts[1] = key(91);
    let err = verify_transfer(
        &ix,
        s.token_program,
        s.client_token.address,
        s.agent_token.address,
        s.client,
    )
    .unwrap_err();
    assert_eq!(err, ErrorCode::TransferDestinationMismatch);

    let mut ix = transfer_ix(&s, 1_000);
    ix.accounts[2] = key(92);
    let err = verify_transfer(
        &ix,
        s.token_program,
        s.client_token.address,
        s.agent_token.address,
        s.client,
    )
    .unwrap_err();
    assert_eq!(err, ErrorCode::TransferAuthorityMismatch);
}

#[test]
fn transfer_uses_named_index() {
    let mut r = Registry::new();
    let s = setup();
    let decoy = TransferInstruction {
        program_id: key(99),
        data: vec![0, 1, 2],
        accounts: vec![],
    };
    let instructions = vec![decoy, transfer_ix(&s, 42)];
    let (_auto, ev) = r
        .register_job(
            s.client,
            s.agent,
            key(40),
            s.client_token,
            s.agent_token,
            s.token_program,
            1,
            &instructions,
            20,
        )
        .unwrap();
    assert_eq!(ev.payment_amount, 42);
}

#[test]
fn feedback_guard_checks_proof_of_payment() {
    let job = JobRecord {
        job_id: derive_address(Namespace::Job, key(40)),
        client_wallet: key(1),
        agent_wallet: key(2),
        payment_tx: key(40),
        payment_amount: 1_000,
        created_at: 20,
    };
    assert_eq!(check_feedback(&job, key(1), key(40), 3), Ok(()));
    let err = check_feedback(&job, key(1), key(41), 3).unwrap_err();
    assert_eq!(err, ErrorCode::InvalidProofOfPayment);
    let err = check_feedback(&job, key(9), key(40), 3).unwrap_err();
    assert_eq!(err, ErrorCode::UnauthorizedClient);
    let err = check_feedback(&job, key(9), key(41), 0).unwrap_err();
    assert_eq!(err, ErrorCode::InvalidRating);
}

#[test]
fn derived_addresses_separate_namespaces() {
    let k = key(40);
    let a = derive_address(Namespace::Agent, k);
    let j = derive_address(Namespace::Job, k);
    let f = derive_address(Namespace::Feedback, k);
    assert_ne!(a, j);
    assert_ne!(j, f);
    assert_eq!(j, derive_address(Namespace::Job, k));
    assert_ne!(j, derive_address(Namespace::Job, key(41)));
}
