use bundler::bundler::begin_bundle;
use bundler::bundler::BundleAction;
use bundler::config::SecurityConfig;
use bundler::errors::BundlerError;
use bundler::fees::FeeManager;
use bundler::simulator::SimulationError;
use bundler::simulator::SimulationResult;
use bundler::simulator::TransactionSimulator;
use bundler::types::AccountMeta;
use bundler::types::BundleRequest;
use bundler::types::BundleStatus;
use bundler::types::ComputeConfig;
use bundler::types::ComputeLimit;
use bundler::types::ComputePrice;
use bundler::types::ConfirmationStatus;
use bundler::types::FeeStrategy;
use bundler::types::InstructionData;
use bundler::types::Pubkey;
use bundler::types::TransactionStatus;
use base64::Engine;

fn key(byte: u8) -> Pubkey {
    Pubkey { bytes: vec![byte; 32] }
}

fn system_transfer_data() -> String {
    // A system-program transfer: instruction tag 2, then the lamports.
    let mut raw = vec![2u8, 0, 0, 0];
    raw.extend_from_slice(&100u64.to_le_bytes());
    base64::engine::general_purpose::STANDARD.encode(&raw)
}

fn transfer_request(atomic: bool, price: ComputePrice, max_price: u64) -> BundleRequest {
    BundleRequest {
        request_id: "req-1".to_string(),
        atomic,
        compute: ComputeConfig {
            limit: ComputeLimit::Auto,
            price,
            max_price_lamports: max_price,
        },
        alt_tables: vec![],
        instructions: vec![InstructionData {
            program_id: key(0),
            keys: vec![
                AccountMeta {
                    pubkey: key(1),
                    is_signer: true,
                    is_writable: true,
                },
                AccountMeta {
                    pubkey: key(2),
                    is_signer: false,
                    is_writable: true,
                },
            ],
            data_b64: system_transfer_data(),
        }],
        signers: vec![],
        metadata: vec![],
    }
}

fn ok_simulation() -> SimulationResult {
    SimulationResult {
        success: true,
        compute_units_consumed: Some(50_000),
        logs: vec!["Program log: Success".to_string()],
        error: None,
        accounts_modified: vec![],
        estimated_fee: Some(5_000),
        return_data: None,
    }
}

fn failed_simulation(message: &str, retryable: bool) -> SimulationResult {
    SimulationResult {
        success: false,
        compute_units_consumed: None,
        logs: vec![],
        error: Some(SimulationError {
            message: message.to_string(),
            retryable,
        }),
        accounts_modified: vec![],
        estimated_fee: None,
        return_data: None,
    }
}

fn default_simulator() -> TransactionSimulator {
    TransactionSimulator::new(SecurityConfig::default())
}

#[test]
fn test_single_instruction_happy_path() {
    let request = transfer_request(true, ComputePrice::Auto, 10_000);
    let strategy = FeeStrategy {
        max_price_lamports: 10_000,
        ..FeeStrategy::default()
    };
    let mut run = begin_bundle(
        &request,
        &default_simulator(),
        FeeManager::new(strategy),
        &key(1),
        &vec![100, 200, 300],
        1_000,
    )
    .expect("a valid transfer bundle must start");

    assert_eq!(run.next_action(), BundleAction::Simulate { tx_index: 0 });
    run.on_simulated(&ok_simulation(), 5);
    assert_eq!(run.next_action(), BundleAction::FetchBlockhash);
    run.on_blockhash("hash1".to_string());
    assert_eq!(run.next_action(), BundleAction::Sign { tx_index: 0 });
    run.on_signed(&Ok(()), 3);
    assert_eq!(run.next_action(), BundleAction::Submit { tx_index: 0 });
    run.on_submitted_ok("sig1".to_string(), 7);
    assert_eq!(
        run.next_action(),
        BundleAction::ConfirmPoll {
            poll_interval_ms: 500
        }
    );
    run.on_confirm(true, false, false, 10);
    assert_eq!(run.next_action(), BundleAction::Finished);

    let response = run.finish_bundle("req-1".to_string(), None, vec![], 25, 2_000);
    assert_eq!(response.status, BundleStatus::Success);
    assert_eq!(response.transactions.len(), 1);
    assert_eq!(response.transactions[0].signature.as_deref(), Some("sig1"));
    assert_eq!(response.bundle_signature.as_deref(), Some("sig1"));
    assert!(response.confirmation.rank() >= ConfirmationStatus::Confirmed.rank());
    assert_eq!(response.metrics.retry_attempts, 0);
}

#[test]
fn test_disallowed_program_rejected() {
    // The allow-list holds the system and compute-budget programs; the
    // instruction calls something else.
    let mut request = transfer_request(true, ComputePrice::Auto, 10_000);
    request.instructions[0].program_id = key(9);
    let security = SecurityConfig {
        program_whitelist: vec![
            key(0),
            bundler::transaction::compute_budget_program(),
        ],
        ..SecurityConfig::default()
    };
    let result = begin_bundle(
        &request,
        &TransactionSimulator::new(security),
        FeeManager::new(FeeStrategy::default()),
        &key(1),
        &vec![100],
        0,
    );
    match result {
        Err(BundlerError::Simulation(msg)) => {
            assert!(msg.contains("not whitelisted"));
        }
        other => panic!("expected a Simulation error, got {:?}", other.map(|_| ())),
    }
}

#[test]
fn test_transient_submit_failure_with_bump() {
    let request = transfer_request(true, ComputePrice::Fixed(1000), 100_000);
    let mut run = begin_bundle(
        &request,
        &default_simulator(),
        FeeManager::new(FeeStrategy::default()),
        &key(1),
        &vec![],
        0,
    )
    .expect("bundle must start");

    run.on_simulated(&ok_simulation(), 1);
    run.on_blockhash("hash1".to_string());
    run.on_signed(&Ok(()), 1);
    assert_eq!(run.next_action(), BundleAction::Submit { tx_index: 0 });

    // First submission fails: the price is bumped by half, rounding up, and
    // rewritten in place into bytes 1..9 of the set-price instruction.
    run.on_submit_failed(2);
    assert_eq!(run.next_action(), BundleAction::Wait { delay_ms: 100 });
    assert_eq!(run.price, 1500);
    let data = &run.txs[0].message.instructions[1].data;
    assert_eq!(data[0], 3);
    let mut le = [0u8; 8];
    le.copy_from_slice(&data[1..9]);
    assert_eq!(u64::from_le_bytes(le), 1500);

    run.on_waited();
    run.on_blockhash("hash2".to_string());
    run.on_signed(&Ok(()), 1);
    run.on_submitted_ok("sig2".to_string(), 2);
    run.on_confirm(true, false, false, 5);

    let response = run.finish_bundle("req-1".to_string(), None, vec![], 20, 100);
    assert_eq!(response.status, BundleStatus::Success);
    assert_eq!(response.metrics.retry_attempts, 1);
}

#[test]
fn test_atomic_short_circuit() {
    let request = transfer_request(true, ComputePrice::Fixed(1000), 100_000);
    let mut run = begin_bundle(
        &request,
        &default_simulator(),
        FeeManager::new(FeeStrategy::default()),
        &key(1),
        &vec![],
        0,
    )
    .expect("bundle must start");
    // A second transaction stands behind the first; the first fails
    // simulation, so under the atomic policy the second never runs.
    let second = run.txs[0].clone();
    run.txs.push(second);

    run.on_simulated(&failed_simulation("program error", false), 2);
    assert_eq!(run.next_action(), BundleAction::Finished);

    let response = run.finish_bundle("req-1".to_string(), None, vec![], 10, 50);
    assert_eq!(response.transactions.len(), 1);
    assert_eq!(response.status, BundleStatus::Failed);
    assert_eq!(response.transactions[0].status, TransactionStatus::Failed);
    assert_eq!(
        response.transactions[0].error.as_deref(),
        Some("program error")
    );
}

#[test]
fn test_confirmation_timeout_reports_no_error() {
    let request = transfer_request(true, ComputePrice::Fixed(1000), 100_000);
    let mut run = begin_bundle(
        &request,
        &default_simulator(),
        FeeManager::new(FeeStrategy::default()),
        &key(1),
        &vec![],
        0,
    )
    .expect("bundle must start");

    run.on_simulated(&ok_simulation(), 1);
    run.on_blockhash("hash1".to_string());
    run.on_signed(&Ok(()), 1);
    run.on_submitted_ok("sig3".to_string(), 1);

    // Confirmation never comes and the transaction never appears; after the
    // 60 s budget the transaction fails, but no error string is raised.
    for _ in 0..119 {
        run.on_confirm(false, false, false, 500);
        assert_eq!(
            run.next_action(),
            BundleAction::ConfirmPoll {
                poll_interval_ms: 500
            }
        );
    }
    run.on_confirm(false, false, false, 500);
    assert_eq!(run.next_action(), BundleAction::Finished);

    let response = run.finish_bundle("req-1".to_string(), None, vec![], 60_100, 99);
    assert_eq!(response.status, BundleStatus::Failed);
    assert_eq!(response.transactions.len(), 1);
    assert_eq!(response.transactions[0].status, TransactionStatus::Failed);
    assert!(response.transactions[0].error.is_none());
}

#[test]
fn test_finalized_path_fetches_details() {
    let request = transfer_request(false, ComputePrice::Fixed(1000), 100_000);
    let mut run = begin_bundle(
        &request,
        &default_simulator(),
        FeeManager::new(FeeStrategy::default()),
        &key(1),
        &vec![],
        0,
    )
    .expect("bundle must start");

    run.on_simulated(&ok_simulation(), 1);
    run.on_blockhash("hash1".to_string());
    run.on_signed(&Ok(()), 1);
    run.on_submitted_ok("sig4".to_string(), 1);
    run.on_confirm(true, true, true, 5);
    assert_eq!(run.next_action(), BundleAction::FetchDetails);
    run.on_details(Some(42_000), Some(5_000), vec!["Program log: ok".to_string()]);

    let response = run.finish_bundle("req-1".to_string(), None, vec![], 10, 1);
    assert_eq!(response.status, BundleStatus::Success);
    assert_eq!(response.confirmation, ConfirmationStatus::Finalized);
    assert_eq!(response.transactions[0].status, TransactionStatus::Finalized);
    assert_eq!(response.transactions[0].compute_units_consumed, Some(42_000));
    assert_eq!(response.transactions[0].fee_paid_lamports, Some(5_000));
}

#[test]
fn test_submit_exhaustion_fails_transaction() {
    let request = transfer_request(true, ComputePrice::Fixed(1000), 100_000);
    let mut run = begin_bundle(
        &request,
        &default_simulator(),
        FeeManager::new(FeeStrategy::default()),
        &key(1),
        &vec![],
        0,
    )
    .expect("bundle must start");

    run.on_simulated(&ok_simulation(), 1);
    run.on_blockhash("h".to_string());
    run.on_signed(&Ok(()), 1);
    run.on_submit_failed(1);
    run.on_waited();
    run.on_blockhash("h2".to_string());
    run.on_signed(&Ok(()), 1);
    run.on_submit_failed(1);
    run.on_waited();
    run.on_blockhash("h3".to_string());
    run.on_signed(&Ok(()), 1);
    run.on_submit_failed(1);
    assert_eq!(run.next_action(), BundleAction::Finished);

    let response = run.finish_bundle("req-1".to_string(), None, vec![], 10, 1);
    assert_eq!(response.status, BundleStatus::Failed);
    assert_eq!(response.metrics.retry_attempts, 3);
    assert_eq!(
        response.transactions[0].error.as_deref(),
        Some("Transaction submission failed after 3 attempts")
    );
}

#[test]
fn test_invalid_base64_rejected() {
    let mut request = transfer_request(true, ComputePrice::Fixed(1), 10);
    request.instructions[0].data_b64 = "not base64!!!".to_string();
    let result = begin_bundle(
        &request,
        &default_simulator(),
        FeeManager::new(FeeStrategy::default()),
        &key(1),
        &vec![],
        0,
    );
    assert!(matches!(result, Err(BundlerError::InvalidInput(_))));
}

#[test]
fn test_oversized_bundle_rejected() {
    let mut request = transfer_request(true, ComputePrice::Fixed(1), 10);
    let ix = request.instructions[0].clone();
    for _ in 0..6 {
        request.instructions.push(ix.clone());
    }
    let result = begin_bundle(
        &request,
        &default_simulator(),
        FeeManager::new(FeeStrategy::default()),
        &key(1),
        &vec![],
        0,
    );
    match result {
        Err(BundlerError::Simulation(msg)) => {
            assert_eq!(msg, "bundle has too many instructions");
        }
        other => panic!("expected a Simulation error, got {:?}", other.map(|_| ())),
    }
}
