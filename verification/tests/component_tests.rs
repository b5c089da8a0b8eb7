use bundler::cli::parse_log_level;
use bundler::cli::LogLevel;
use bundler::codec::base58_decode;
use bundler::codec::base58_encode;
use bundler::codec::base64_decode;
use bundler::codec::base64_encode;
use bundler::codec::instruction_from_data;
use bundler::codec::instruction_to_data;
use bundler::codec::parse_json_byte_array;
use bundler::config::default_commitment;
use bundler::config::default_log_format;
use bundler::config::default_max_bundle_size;
use bundler::config::default_max_writable_accounts;
use bundler::config::default_port;
use bundler::config::system_program;
use bundler::config::BundlerConfig;
use bundler::config::CorsConfig;
use bundler::config::LoggingConfig;
use bundler::config::PerformanceConfig;
use bundler::config::RateLimitConfig;
use bundler::config::RpcConfig;
use bundler::config::SecurityConfig;
use bundler::config::ServiceConfig;
use bundler::config::SigningConfig;
use bundler::errors::BundlerError;
use bundler::fees::calculate_percentile_fee;
use bundler::fees::sort_fees;
use bundler::fees::FeeManager;
use bundler::fees::FeePriority;
use bundler::fees::TrendDirection;
use bundler::pool::calculate_backoff;
use bundler::pool::EndpointHealth;
use bundler::pool::EndpointPool;
use bundler::signing::parse_env_keypair;
use bundler::signing::parse_file_keypair;
use bundler::signing::KeyProvider;
use bundler::signing::SigningManager;
use bundler::simulator::contains_warning;
use bundler::simulator::SimulationError;
use bundler::simulator::SimulationResult;
use bundler::simulator::TransactionSimulator;
use bundler::transaction::compute_budget_program;
use bundler::types::AccountMeta;
use bundler::types::FeeStrategy;
use bundler::types::Instruction;
use bundler::types::Pubkey;
use bundler::types::RpcEndpoint;
use bundler::types::SignerConfig;
use bundler::types::SignerType;
use base64::Engine;
use solana_sdk::signature::Keypair;
use solana_sdk::signature::Signer;

fn key(byte: u8) -> Pubkey {
    Pubkey { bytes: vec![byte; 32] }
}

fn endpoint(url: &str, weight: u32) -> RpcEndpoint {
    RpcEndpoint {
        url: url.to_string(),
        weight,
        supports_jito: false,
        auth_token: None,
    }
}

// --- fees ---

#[test]
fn test_percentile_fee_calculation() {
    let fees = vec![100u64, 200, 300, 400, 500];
    assert_eq!(calculate_percentile_fee(&fees, 75), 400);
    assert_eq!(calculate_percentile_fee(&fees, 0), 100);
    assert_eq!(calculate_percentile_fee(&fees, 100), 500);
    assert_eq!(calculate_percentile_fee(&vec![], 75), 1);
}

#[test]
fn test_sort_fees_orders_and_keeps_entries() {
    let sorted = sort_fees(&vec![300u64, 100, 200, 100]);
    assert_eq!(sorted, vec![100, 100, 200, 300]);
}

#[test]
fn test_empty_fee_list_yields_minimum_price() {
    let mut manager = FeeManager::new(FeeStrategy::default());
    // The minimum price comes back whatever the adaptive flag says.
    assert_eq!(manager.calculate_fee(&vec![], 0), 1);
    let mut fixed = FeeManager::new(FeeStrategy {
        adaptive: false,
        ..FeeStrategy::default()
    });
    assert_eq!(fixed.calculate_fee(&vec![], 0), 1);
    assert_eq!(manager.fee_history.len(), 0);
}

#[test]
fn test_price_never_exceeds_ceiling() {
    let mut manager = FeeManager::new(FeeStrategy {
        max_price_lamports: 250,
        ..FeeStrategy::default()
    });
    for round in 0..150u64 {
        let price = manager.calculate_fee(&vec![1_000_000, 2_000_000, 3_000_000], round);
        assert!(price <= 250);
    }
    // The history is capped and ordered by insertion: it keeps the most
    // recent entries.
    assert_eq!(manager.fee_history.len(), 100);
    for pair in manager.fee_history.windows(2) {
        assert!(pair[0].timestamp <= pair[1].timestamp);
    }
}

#[test]
fn test_fee_bumping_raises_by_half() {
    let manager = FeeManager::new(FeeStrategy::default());
    assert_eq!(manager.bump_fee(1000, 1).unwrap(), 1500);
    assert_eq!(manager.bump_fee(1000, 2).unwrap(), 2250);
    assert_eq!(manager.bump_fee(999, 1).unwrap(), 1499);
    // The ceiling holds.
    assert_eq!(manager.bump_fee(99_999, 3).unwrap(), 100_000);
}

#[test]
fn test_bump_disabled_returns_original() {
    let manager = FeeManager::new(FeeStrategy {
        enable_bump: false,
        ..FeeStrategy::default()
    });
    assert_eq!(manager.bump_fee(123_456_789, 2).unwrap(), 123_456_789);
}

#[test]
fn test_zero_bump_budget_fails_every_bump() {
    let manager = FeeManager::new(FeeStrategy {
        max_bump_attempts: 0,
        ..FeeStrategy::default()
    });
    assert!(matches!(
        manager.bump_fee(1000, 1),
        Err(BundlerError::Transaction(_))
    ));
    assert!(matches!(
        manager.bump_fee(1000, 7),
        Err(BundlerError::Transaction(_))
    ));
}

#[test]
fn test_fee_priority_multipliers() {
    assert_eq!(FeePriority::Low.multiplier_permille(), 800);
    assert_eq!(FeePriority::Normal.multiplier_permille(), 1000);
    assert_eq!(FeePriority::High.multiplier_permille(), 1500);
    assert_eq!(FeePriority::Urgent.multiplier_permille(), 2000);
}

#[test]
fn test_trend_stable_below_five_samples() {
    let mut manager = FeeManager::new(FeeStrategy::default());
    manager.record_fee_calculation(100, 0);
    manager.record_fee_calculation(200, 1);
    let trend = manager.analyze_fee_trend();
    assert_eq!(trend.direction, TrendDirection::Stable);
    assert_eq!(trend.magnitude_milli, 0);
    assert_eq!(trend.confidence_milli, 0);
}

#[test]
fn test_trend_detects_rising_prices() {
    let mut manager = FeeManager::new(FeeStrategy::default());
    for (t, fee) in [500u64, 400, 300, 200, 100].iter().enumerate() {
        manager.record_fee_calculation(*fee, t as u64);
    }
    // The window reads most recent first, so prices that fell over time
    // slope upward in window order.
    let trend = manager.analyze_fee_trend();
    assert_eq!(trend.direction, TrendDirection::Rising);
    assert!(trend.confidence_milli > 900);
}

#[test]
fn test_clear_history_empties_history() {
    let mut manager = FeeManager::new(FeeStrategy::default());
    manager.record_fee_calculation(5, 0);
    manager.clear_history();
    assert_eq!(manager.fee_history.len(), 0);
}

// --- pool ---

#[test]
fn test_three_failures_mark_endpoint_unhealthy() {
    let mut pool = EndpointPool::new(vec![endpoint("a", 1)], 3, 100, 10_000);
    pool.record_failure(0, 1);
    pool.record_failure(0, 2);
    assert!(pool.health[0].healthy);
    pool.record_failure(0, 3);
    assert!(!pool.health[0].healthy);
    assert_eq!(pool.health[0].consecutive_failures, 3);
    // Any success restores health and ends the streak.
    pool.record_success(0, 40, 4);
    assert!(pool.health[0].healthy);
    assert_eq!(pool.health[0].consecutive_failures, 0);
    assert_eq!(pool.health[0].average_latency_ms, Some(40));
    pool.record_success(0, 80, 5);
    assert_eq!(pool.health[0].average_latency_ms, Some(60));
}

#[test]
fn test_pick_best_prefers_healthy_weight() {
    let mut pool = EndpointPool::new(
        vec![endpoint("low", 10), endpoint("high", 100), endpoint("mid", 50)],
        3,
        100,
        10_000,
    );
    assert_eq!(pool.get_best_endpoint().unwrap(), 1);
    // The pick is a pure function of the pool state.
    assert_eq!(pool.get_best_endpoint().unwrap(), 1);
    // With the heaviest endpoint out, the next healthy one wins.
    for t in 0..3 {
        pool.record_failure(1, t);
    }
    assert_eq!(pool.get_best_endpoint().unwrap(), 2);
}

#[test]
fn test_all_endpoints_unhealthy_still_picks_heaviest() {
    let mut pool = EndpointPool::new(vec![endpoint("a", 10), endpoint("b", 100)], 3, 100, 10_000);
    for i in 0..2 {
        for t in 0..3 {
            pool.record_failure(i, t);
        }
        assert!(!pool.health[i].healthy);
        assert!(pool.health[i].consecutive_failures >= 3);
    }
    let best = pool.get_best_endpoint().unwrap();
    assert_eq!(best, 1);
    assert_eq!(pool.endpoints[best].weight, 100);
    // The retry budget is max_retries + 1 attempts in all.
    assert!(pool.should_retry(3));
    assert!(!pool.should_retry(4));
}

#[test]
fn test_probe_sweep_updates_every_endpoint() {
    let mut pool = EndpointPool::new(vec![endpoint("a", 1), endpoint("b", 2)], 3, 100, 10_000);
    pool.apply_probe_results(&vec![Some(30), None], 9);
    assert!(pool.health[0].healthy);
    assert_eq!(pool.health[0].average_latency_ms, Some(30));
    assert_eq!(pool.health[1].consecutive_failures, 1);
    assert_eq!(pool.health[1].last_failure, Some(9));
}

#[test]
fn test_backoff_stays_within_jitter_band() {
    for attempt in 1..6u32 {
        let mut nominal: u64 = 100;
        for _ in 1..attempt {
            nominal = (nominal * 2).min(10_000);
        }
        let delay = calculate_backoff(100, 10_000, attempt);
        assert!(delay >= nominal - nominal / 4);
        assert!(delay <= nominal + nominal / 4);
    }
}

#[test]
fn test_default_endpoint_health() {
    let health = EndpointHealth::default();
    assert!(health.healthy);
    assert_eq!(health.consecutive_failures, 0);
    assert!(health.last_success.is_none());
    assert!(health.last_failure.is_none());
    assert!(health.average_latency_ms.is_none());
}

// --- simulator ---

fn transfer_instruction(program: Pubkey, writables: usize) -> Instruction {
    let mut accounts = Vec::new();
    for i in 0..writables {
        accounts.push(AccountMeta {
            pubkey: key(i as u8),
            is_signer: i == 0,
            is_writable: true,
        });
    }
    Instruction {
        program_id: program,
        accounts,
        data: vec![2, 0, 0, 0],
    }
}

#[test]
fn test_validate_is_deterministic() {
    let simulator = TransactionSimulator::new(SecurityConfig::default());
    let instrs = vec![transfer_instruction(key(0), 2)];
    let first = simulator.validate_instructions(&instrs).is_ok();
    let second = simulator.validate_instructions(&instrs).is_ok();
    assert_eq!(first, second);
    assert!(first);
}

#[test]
fn test_empty_allow_list_allows_any_program() {
    let security = SecurityConfig {
        program_whitelist: vec![],
        ..SecurityConfig::default()
    };
    let simulator = TransactionSimulator::new(security);
    let instrs = vec![transfer_instruction(key(123), 1)];
    assert!(simulator.validate_instructions(&instrs).is_ok());
}

#[test]
fn test_validate_rejects_foreign_program() {
    let simulator = TransactionSimulator::new(SecurityConfig::default());
    let instrs = vec![transfer_instruction(key(123), 1)];
    match simulator.validate_instructions(&instrs) {
        Err(BundlerError::Simulation(msg)) => assert!(msg.contains("not whitelisted")),
        other => panic!("expected rejection, got {:?}", other),
    }
}

#[test]
fn test_validate_rejects_too_many_writable_accounts() {
    let security = SecurityConfig {
        max_writable_accounts: 2,
        ..SecurityConfig::default()
    };
    let simulator = TransactionSimulator::new(security);
    let instrs = vec![transfer_instruction(key(0), 3)];
    match simulator.validate_instructions(&instrs) {
        Err(BundlerError::Simulation(msg)) => {
            assert_eq!(msg, "instruction has too many writable accounts");
        }
        other => panic!("expected rejection, got {:?}", other),
    }
}

#[test]
fn test_validation_off_accepts_everything() {
    let security = SecurityConfig {
        validate_instructions: false,
        max_bundle_size: 1,
        ..SecurityConfig::default()
    };
    let simulator = TransactionSimulator::new(security);
    let instrs = vec![
        transfer_instruction(key(50), 1),
        transfer_instruction(key(51), 1),
    ];
    assert!(simulator.validate_instructions(&instrs).is_ok());
}

#[test]
fn test_estimate_compute_units_bounds() {
    let simulator = TransactionSimulator::new(SecurityConfig::default());
    assert_eq!(simulator.estimate_compute_units(Some(50_000), 1), 60_000);
    assert_eq!(simulator.estimate_compute_units(Some(1), 1), 1_000);
    assert_eq!(
        simulator.estimate_compute_units(Some(2_000_000), 1),
        1_400_000
    );
    assert_eq!(simulator.estimate_compute_units(None, 2), 21_000);
    assert_eq!(simulator.estimate_compute_units(None, 500), 1_400_000);
    for estimate in [
        simulator.estimate_compute_units(Some(0), 0),
        simulator.estimate_compute_units(None, 0),
        simulator.estimate_compute_units(Some(u32::MAX), 9),
    ] {
        assert!((1_000..=1_400_000).contains(&estimate));
    }
}

fn success_simulation(cu: Option<u32>, logs: Vec<String>) -> SimulationResult {
    SimulationResult {
        success: true,
        compute_units_consumed: cu,
        logs,
        error: None,
        accounts_modified: vec![],
        estimated_fee: None,
        return_data: None,
    }
}

#[test]
fn test_predict_success_scores() {
    let simulator = TransactionSimulator::new(SecurityConfig::default());
    assert_eq!(
        simulator.predict_success(&success_simulation(Some(50_000), vec![])),
        900
    );
    assert_eq!(
        simulator.predict_success(&success_simulation(
            Some(50_000),
            vec!["Program log: WARNING something".to_string()]
        )),
        855
    );
    assert_eq!(
        simulator.predict_success(&success_simulation(Some(2_000_000), vec![])),
        720
    );
    assert_eq!(
        simulator.predict_success(&success_simulation(Some(5_000), vec![])),
        990
    );
    let retryable = SimulationResult {
        success: false,
        compute_units_consumed: None,
        logs: vec![],
        error: Some(SimulationError {
            message: "busy".to_string(),
            retryable: true,
        }),
        accounts_modified: vec![],
        estimated_fee: None,
        return_data: None,
    };
    assert_eq!(simulator.predict_success(&retryable), 300);
    let hopeless = SimulationResult {
        error: Some(SimulationError {
            message: "broken".to_string(),
            retryable: false,
        }),
        ..retryable.clone()
    };
    assert_eq!(simulator.predict_success(&hopeless), 0);
    let silent = SimulationResult {
        error: None,
        ..retryable
    };
    assert_eq!(simulator.predict_success(&silent), 100);
}

#[test]
fn test_contains_warning_is_case_insensitive() {
    assert!(contains_warning("Program log: WARNING low funds"));
    assert!(contains_warning("warning"));
    assert!(contains_warning("wArNiNg at the end"));
    assert!(!contains_warning("all good"));
    assert!(!contains_warning("warnin"));
}

#[test]
fn test_simulator_health_check() {
    let ok = TransactionSimulator::new(SecurityConfig::default());
    assert!(ok.health_check().is_ok());
    let broken = TransactionSimulator::new(SecurityConfig {
        max_bundle_size: 0,
        ..SecurityConfig::default()
    });
    assert!(broken.health_check().is_err());
}

// --- codec ---

#[test]
fn test_base64_round_trip() {
    let data = vec![1u8, 2, 3, 4, 5, 255, 0];
    let encoded = base64_encode(&data);
    assert_eq!(
        encoded,
        base64::engine::general_purpose::STANDARD.encode(&data)
    );
    assert_eq!(base64_decode(&encoded), Some(data));
    assert_eq!(base64_decode("AQID"), Some(vec![1, 2, 3]));
    assert_eq!(base64_decode("dGVzdA=="), Some(b"test".to_vec()));
    assert_eq!(base64_decode("not base64!!!"), None);
}

#[test]
fn test_base58_round_trip() {
    let data = vec![7u8; 64];
    let encoded = base58_encode(&data);
    assert_eq!(encoded, bs58::encode(&data).into_string());
    assert_eq!(base58_decode(&encoded), Some(data));
    assert_eq!(base58_decode("=&%"), None);
}

#[test]
fn test_json_byte_array_parsing() {
    assert_eq!(parse_json_byte_array("[1,2,3]"), Some(vec![1, 2, 3]));
    assert_eq!(parse_json_byte_array("[]"), Some(vec![]));
    assert_eq!(parse_json_byte_array("[300]"), None);
    assert_eq!(parse_json_byte_array("nonsense"), None);
}

#[test]
fn test_instruction_data_round_trip() {
    let ix = Instruction {
        program_id: key(0),
        accounts: vec![AccountMeta {
            pubkey: key(1),
            is_signer: true,
            is_writable: false,
        }],
        data: vec![9, 8, 7],
    };
    let wire = instruction_to_data(&ix);
    assert_eq!(wire.data_b64, "CQgH");
    let back = instruction_from_data(&wire).unwrap();
    assert_eq!(back.data, ix.data);
    assert_eq!(back.program_id, ix.program_id);
    assert_eq!(back.accounts.len(), 1);
    assert!(back.accounts[0].is_signer);
    assert!(!back.accounts[0].is_writable);
}

#[test]
fn test_compute_budget_program_address() {
    // The constant must be the raw form of the program's base58 address.
    let expected = bs58::decode("ComputeBudget111111111111111111111111111111")
        .into_vec()
        .unwrap();
    assert_eq!(compute_budget_program().bytes, expected);
    // And the system program is the all-zero key.
    assert_eq!(system_program().bytes, vec![0u8; 32]);
}

// --- signing ---

#[test]
fn test_parse_file_keypair_accepts_raw_and_json() {
    let raw = Keypair::new().to_bytes().to_vec();
    assert_eq!(parse_file_keypair(&raw, "").unwrap(), raw);

    let coherent = Keypair::new().to_bytes().to_vec();
    let json = serde_json::to_string(&coherent).unwrap();
    assert_eq!(parse_file_keypair(&vec![], &json).unwrap(), coherent);

    // 64 bytes whose public half does not derive from the secret half are
    // rejected at load, raw or as JSON.
    assert!(parse_file_keypair(&vec![3u8; 64], "").is_err());
    let bad_json = serde_json::to_string(&vec![4u8; 64]).unwrap();
    assert!(parse_file_keypair(&vec![], &bad_json).is_err());

    assert!(parse_file_keypair(&vec![1u8; 10], "[1,2,3]").is_err());
    assert!(parse_file_keypair(&vec![], "nonsense").is_err());
}

#[test]
fn test_parse_env_keypair_accepts_base58_and_json() {
    let bytes = Keypair::new().to_bytes().to_vec();
    let b58 = bs58::encode(&bytes).into_string();
    assert_eq!(parse_env_keypair(&b58).unwrap(), bytes);

    let coherent = Keypair::new().to_bytes().to_vec();
    let json = serde_json::to_string(&coherent).unwrap();
    assert_eq!(parse_env_keypair(&json).unwrap(), coherent);

    // Incoherent 64-byte material is rejected at load.
    let bad = bs58::encode(&vec![5u8; 64]).into_string();
    assert!(parse_env_keypair(&bad).is_err());

    let short = bs58::encode(&vec![5u8; 10]).into_string();
    assert!(parse_env_keypair(&short).is_err());
    assert!(parse_env_keypair("@@@").is_err());
}

#[test]
fn test_key_provider_public_key_is_second_half() {
    let keypair = Keypair::new().to_bytes().to_vec();
    let provider = KeyProvider::Local {
        keypair: keypair.clone(),
    };
    let pk = provider.public_key().unwrap();
    assert_eq!(pk.bytes, keypair[32..].to_vec());
    assert!(provider.health_check().is_ok());
    assert!(provider.sign(&vec![1, 2, 3]).is_ok());

    // A manager refuses incoherent local material outright.
    assert!(SigningManager::new(
        KeyProvider::Local {
            keypair: vec![9u8; 64]
        },
        vec![],
        true
    )
    .is_err());
}

#[test]
fn test_kms_stub_fails_cleanly() {
    let provider = KeyProvider::Kms {
        key_id: "kms-key".to_string(),
        region: "us-east-1".to_string(),
    };
    assert!(matches!(
        provider.public_key(),
        Err(BundlerError::Signing(_))
    ));
    assert!(matches!(
        provider.sign(&vec![1, 2, 3]),
        Err(BundlerError::Signing(_))
    ));
    assert!(matches!(
        provider.health_check(),
        Err(BundlerError::Signing(_))
    ));
}

#[test]
fn test_signing_manager_signs_into_fee_payer_slot() {
    // A real keypair: the signature lands in the slot of the fee payer's
    // key, and is a genuine 64-byte ed25519 signature over the message.
    let kp = Keypair::new();
    let kp_bytes = kp.to_bytes().to_vec();
    let fee_payer = Pubkey {
        bytes: kp.pubkey().to_bytes().to_vec(),
    };
    let manager = SigningManager::new(
        KeyProvider::Local {
            keypair: kp_bytes.clone(),
        },
        vec![],
        true,
    )
    .unwrap();
    assert_eq!(manager.fee_payer_pubkey().unwrap().bytes, fee_payer.bytes);

    let instrs = vec![Instruction {
        program_id: key(0),
        accounts: vec![AccountMeta {
            pubkey: fee_payer.clone(),
            is_signer: true,
            is_writable: true,
        }],
        data: vec![2, 0, 0, 0],
    }];
    let msg = bundler::transaction::compile_message(&instrs, &fee_payer).unwrap();
    let mut tx = bundler::transaction::new_unsigned_transaction(msg);
    let message_bytes = vec![10u8, 20, 30];
    let placed = manager.sign_transaction(&mut tx, &message_bytes).unwrap();
    assert!(placed);
    assert_eq!(tx.signatures[0].len(), 64);
    let expected = kp.sign_message(&message_bytes);
    assert_eq!(tx.signatures[0], expected.as_ref().to_vec());
}

#[test]
fn test_unknown_alias_fails_signing() {
    let kp = Keypair::new();
    let fee_payer = Pubkey {
        bytes: kp.pubkey().to_bytes().to_vec(),
    };
    let manager =
        SigningManager::new(KeyProvider::Local { keypair: kp.to_bytes().to_vec() }, vec![], true)
            .unwrap();
    let instrs = vec![transfer_instruction(key(0), 1)];
    let msg = bundler::transaction::compile_message(&instrs, &fee_payer).unwrap();
    let mut tx = bundler::transaction::new_unsigned_transaction(msg);
    let result = manager.sign_with_additional(
        &mut tx,
        &vec!["missing".to_string()],
        &vec![1, 2, 3],
    );
    assert!(matches!(result, Err(BundlerError::Signing(_))));
    assert!(manager.get_signer(&"missing".to_string()).is_none());
}

// --- config and cli ---

#[test]
fn test_default_values_of_config_fields() {
    assert_eq!(default_commitment(), "confirmed");
    assert_eq!(default_log_format(), "pretty");
    assert_eq!(default_port(), 8080);
    assert_eq!(default_max_bundle_size(), 5);
    assert_eq!(default_max_writable_accounts(), 64);
}

fn small_config() -> BundlerConfig {
    BundlerConfig {
        rpc: RpcConfig {
            endpoints: vec![endpoint("https://example.invalid", 100)],
            commitment: default_commitment(),
            timeout_seconds: 30,
            max_retries: 3,
            pool_size: 10,
            backoff_base_ms: 100,
            backoff_max_ms: 10_000,
        },
        fees: FeeStrategy::default(),
        security: SecurityConfig::default(),
        signing: SigningConfig {
            fee_payer: SignerConfig {
                signer_type: SignerType::Env {
                    var_name: "KEY".to_string(),
                },
                alias: None,
            },
            additional_signers: vec![],
            parallel_signing: true,
        },
        jito: None,
        logging: LoggingConfig {
            level: "info".to_string(),
            format: "pretty".to_string(),
            file_enabled: false,
            file_path: None,
            include_timestamps: true,
        },
        service: ServiceConfig {
            bind_address: "127.0.0.1".to_string(),
            port: 8080,
            request_timeout_seconds: 30,
            max_body_size_bytes: 1_048_576,
            cors: CorsConfig {
                allowed_origins: vec!["*".to_string()],
                allowed_methods: vec!["GET".to_string(), "POST".to_string()],
                allowed_headers: vec![],
                allow_credentials: false,
            },
            rate_limit: RateLimitConfig {
                requests_per_minute: 60,
                burst_size: 10,
                enabled: true,
            },
        },
        performance: PerformanceConfig {
            worker_threads: 4,
            batch_size: 10,
            simulation_cache_size: 1000,
            cache_ttl_seconds: 300,
            metrics_enabled: true,
        },
    }
}

#[test]
fn test_config_validation_catches_each_zero() {
    let config = small_config();
    assert!(config.validate().is_ok());

    let mut bad = small_config();
    bad.rpc.endpoints.clear();
    assert!(matches!(bad.validate(), Err(BundlerError::Config(_))));

    let mut bad = small_config();
    bad.rpc.endpoints[0].weight = 0;
    assert!(bad.validate().is_err());

    let mut bad = small_config();
    bad.security.max_bundle_size = 0;
    assert!(bad.validate().is_err());

    let mut bad = small_config();
    bad.service.port = 0;
    assert!(bad.validate().is_err());

    let mut bad = small_config();
    bad.performance.worker_threads = 0;
    assert!(bad.validate().is_err());
}

#[test]
fn test_primary_endpoint_is_heaviest() {
    let mut config = small_config();
    config.rpc.endpoints = vec![endpoint("low", 10), endpoint("high", 100)];
    assert_eq!(config.primary_rpc_endpoint().url, "high");
    assert!(config.is_program_whitelisted(&system_program()));
    assert!(!config.is_program_whitelisted(&key(42)));
}

#[test]
fn test_parse_log_level_names() {
    assert_eq!(parse_log_level(&"trace".to_string()), Some(LogLevel::Trace));
    assert_eq!(parse_log_level(&"debug".to_string()), Some(LogLevel::Debug));
    assert_eq!(parse_log_level(&"info".to_string()), Some(LogLevel::Info));
    assert_eq!(parse_log_level(&"warn".to_string()), Some(LogLevel::Warn));
    assert_eq!(parse_log_level(&"error".to_string()), Some(LogLevel::Error));
    assert_eq!(parse_log_level(&"loud".to_string()), None);
}

#[test]
fn test_default_config_is_valid() {
    let config = BundlerConfig::default();
    assert!(config.validate().is_ok());
    assert_eq!(config.rpc.commitment, "confirmed");
    assert_eq!(config.rpc.timeout_seconds, 30);
    assert_eq!(config.rpc.max_retries, 3);
    assert_eq!(config.rpc.endpoints.len(), 1);
    assert_eq!(config.service.bind_address, "127.0.0.1");
    assert_eq!(config.service.port, 8080);
    assert_eq!(config.logging.level, "info");
    assert_eq!(config.logging.format, "pretty");
    assert!(config.security.require_simulation);
    assert_eq!(config.security.max_writable_accounts, 64);
    assert!(config.performance.worker_threads > 0);
    assert_eq!(config.performance.batch_size, 10);
}

#[test]
fn test_builder_pattern() {
    let config = bundler::config::BundlerConfigBuilder::new()
        .with_rpc_endpoint("https://example-a.invalid".to_string(), 50)
        .with_rpc_endpoint("https://example-b.invalid".to_string(), 30)
        .with_log_level("trace".to_string())
        .with_port(9090)
        .with_worker_threads(8)
        .build()
        .unwrap();

    assert_eq!(config.rpc.endpoints.len(), 3); // two added beside the default
    assert_eq!(config.logging.level, "trace");
    assert_eq!(config.service.port, 9090);
    assert_eq!(config.performance.worker_threads, 8);

    let invalid = bundler::config::BundlerConfigBuilder::new()
        .with_worker_threads(0)
        .build();
    assert!(invalid.is_err());
}

#[test]
fn test_compute_budget_instructions() {
    let manager = FeeManager::new(FeeStrategy::default());
    let instructions = manager.create_compute_budget_instructions(200_000, 5_000);
    assert_eq!(instructions.len(), 2);
    assert_eq!(instructions[0].program_id, compute_budget_program());
    assert_eq!(instructions[1].program_id, compute_budget_program());
    assert_eq!(instructions[0].data[0], 2);
    assert_eq!(&instructions[0].data[1..5], 200_000u32.to_le_bytes().as_slice());
    assert_eq!(instructions[1].data[0], 3);
    assert_eq!(&instructions[1].data[1..9], 5_000u64.to_le_bytes().as_slice());
}

#[test]
fn test_zero_samples_still_price_at_minimum() {
    // Samples of 0 give a percentile of 0, but the emitted price is floored
    // at the minimum of 1 while the ceiling admits one.
    let mut manager = FeeManager::new(FeeStrategy::default());
    assert_eq!(manager.calculate_fee(&vec![0, 0, 0], 7), 1);
    assert_eq!(manager.fee_history.len(), 1);
    assert_eq!(manager.fee_history[0].fee_lamports, 1);
}

#[test]
fn test_rpc_endpoints_by_weight_orders_stably() {
    let mut config = small_config();
    config.rpc.endpoints = vec![
        endpoint("a", 10),
        endpoint("b", 100),
        endpoint("c", 50),
        endpoint("d", 100),
    ];
    // Descending weight; the two equal weights keep their configured order.
    assert_eq!(config.rpc_endpoints_by_weight(), vec![1, 3, 2, 0]);
}
