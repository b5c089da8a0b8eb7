use bundler::errors::BundlerError;
use bundler::types::BundleMetrics;
use bundler::types::BundleStatus;
use bundler::types::FeeStrategy;
use bundler::types::JitoConfig;
use bundler::types::Pubkey;
use bundler::types::SignerConfig;
use bundler::types::SignerType;
use bundler::types::TransactionStatus;

#[test]
fn test_bundle_status_equality() {
    assert_eq!(BundleStatus::Success, BundleStatus::Success);
    assert_ne!(BundleStatus::Success, BundleStatus::Failed);
    assert_eq!(BundleStatus::Partial, BundleStatus::Partial);
}

#[test]
fn test_transaction_status_equality() {
    assert_eq!(TransactionStatus::Confirmed, TransactionStatus::Confirmed);
    assert_ne!(TransactionStatus::Confirmed, TransactionStatus::Failed);
}

#[test]
fn test_error_types() {
    let error = BundlerError::InvalidInstruction("test error".to_string());
    assert!(matches!(error, BundlerError::InvalidInstruction(_)));

    let rpc_error = BundlerError::RpcError("connection failed".to_string());
    assert!(matches!(rpc_error, BundlerError::RpcError(_)));
}

#[test]
fn test_fee_strategy() {
    let strategy = FeeStrategy {
        base_fee_lamports: 5000,
        priority_fee_lamports: 1000,
        compute_unit_price_micro_lamports: 1500,
        max_price_lamports: 100000,
        ..FeeStrategy::default()
    };

    // Test that max_price is enforced
    assert!(strategy.max_price_lamports > strategy.base_fee_lamports);
    assert!(strategy.max_price_lamports > strategy.priority_fee_lamports);
}

#[test]
fn test_fee_strategy_default() {
    let strategy = FeeStrategy::default();

    assert_eq!(strategy.base_fee_lamports, 5000);
    assert_eq!(strategy.priority_fee_lamports, 1000);
    assert_eq!(strategy.compute_unit_price_micro_lamports, 1000);
    assert_eq!(strategy.max_price_lamports, 100000);
    assert_eq!(strategy.base_percentile, 75);
    assert_eq!(strategy.buffer_percent, 20);
    assert!(strategy.adaptive);
    assert!(strategy.enable_bump);
    assert_eq!(strategy.max_bump_attempts, 3);

    // Test that max_price is enforced
    assert!(strategy.max_price_lamports > strategy.base_fee_lamports);
    assert!(strategy.max_price_lamports > strategy.priority_fee_lamports);
}

#[test]
fn test_bundle_metrics() {
    let metrics = BundleMetrics {
        total_transactions: 5,
        successful_transactions: 4,
        failed_transactions: 1,
        total_compute_units: 1000000,
        total_fee_paid: 25000,
        processing_time_ms: 2500,
        total_latency_ms: 2500,
        simulation_time_ms: 400,
        signing_time_ms: 200,
        submission_time_ms: 600,
        confirmation_time_ms: 1300,
        retry_attempts: 1,
        rpc_endpoints_used: vec!["https://api.mainnet-beta.solana.com".to_string()],
    };

    assert_eq!(metrics.total_transactions, 5);
    assert_eq!(
        metrics.successful_transactions + metrics.failed_transactions,
        metrics.total_transactions
    );
    assert!(metrics.processing_time_ms > 0);
    assert!(metrics.total_latency_ms >= metrics.processing_time_ms);
}

#[test]
fn test_bundle_metrics_calculation() {
    let metrics = BundleMetrics {
        total_transactions: 3,
        successful_transactions: 2,
        failed_transactions: 1,
        total_compute_units: 150_000,
        total_fee_paid: 15_000,
        processing_time_ms: 1_500,
        total_latency_ms: 2000,
        simulation_time_ms: 300,
        signing_time_ms: 100,
        submission_time_ms: 1200,
        confirmation_time_ms: 400,
        retry_attempts: 2,
        rpc_endpoints_used: vec!["endpoint1".to_string(), "endpoint2".to_string()],
    };

    // Verify that component times don't exceed total
    let component_sum = metrics.simulation_time_ms
        + metrics.signing_time_ms
        + metrics.submission_time_ms
        + metrics.confirmation_time_ms;

    assert!(component_sum <= metrics.total_latency_ms);
    assert_eq!(metrics.rpc_endpoints_used.len(), 2);
    assert_eq!(metrics.retry_attempts, 2);
    assert_eq!(metrics.total_transactions, 3);
    assert_eq!(
        metrics.successful_transactions + metrics.failed_transactions,
        metrics.total_transactions
    );
}

#[test]
fn test_signer_config() {
    let signer = SignerConfig {
        signer_type: SignerType::File {
            path: "/path/to/keypair.json".to_string(),
        },
        alias: None,
    };

    assert!(matches!(signer.signer_type, SignerType::File { .. }));
    assert!(signer.path().is_some());
    assert!(signer.env_var().is_none());
}

#[test]
fn test_error_display() {
    let error = BundlerError::InvalidInstruction("test message".to_string());
    let display_str = error.display_string();
    assert!(display_str.contains("test message"));
}

#[test]
fn test_bundler_error_variants() {
    let errors = vec![
        BundlerError::Config("Invalid config".to_string()),
        BundlerError::Rpc("Connection failed".to_string()),
        BundlerError::Signing("Key not found".to_string()),
        BundlerError::Simulation("Simulation failed".to_string()),
        BundlerError::Transaction("Transaction failed".to_string()),
        BundlerError::Timeout("Request timeout".to_string()),
        BundlerError::InvalidInput("Bad input".to_string()),
        BundlerError::InvalidInstruction("Bad instruction".to_string()),
        BundlerError::RpcError("RPC error".to_string()),
        BundlerError::Internal("Internal error".to_string()),
    ];

    for error in errors {
        let error_string = error.display_string();
        assert!(!error_string.is_empty());
    }
}

#[test]
fn test_jito_config_optional_fields() {
    let jito_config = JitoConfig {
        block_engine_url: "https://mainnet.block-engine.jito.wtf".to_string(),
        relayer_url: "https://relayer.jito.wtf".to_string(),
        auth_keypair_path: Some("/path/to/jito.json".to_string()),
        tip_lamports: 10_000,
        max_tip_lamports: 20_000,
        enabled: true,
    };

    assert!(jito_config.enabled);
    assert_eq!(jito_config.tip_lamports, 10_000);
    assert_eq!(
        jito_config.auth_keypair_path.as_deref(),
        Some("/path/to/jito.json")
    );

    let disabled_jito = JitoConfig {
        block_engine_url: "https://mainnet.block-engine.jito.wtf".to_string(),
        relayer_url: "https://relayer.jito.wtf".to_string(),
        auth_keypair_path: None,
        tip_lamports: 0,
        max_tip_lamports: 5_000,
        enabled: false,
    };

    assert!(!disabled_jito.enabled);
    assert!(disabled_jito.auth_keypair_path.is_none());
    assert_eq!(disabled_jito.max_tip_lamports, 5_000);
}

#[test]
fn test_new_edge_cases() {
    // Constructors on boundary inputs: a key must hold exactly 32 bytes.
    assert!(Pubkey::new(vec![0u8; 32]).is_ok());
    assert!(Pubkey::new(vec![0u8; 31]).is_err());
    assert!(Pubkey::new(vec![]).is_err());

    // A zero writable-account ceiling is rejected at build time.
    let builder = bundler::config::SecurityConfigBuilder::new().with_max_writable_accounts(0);
    assert!(builder.build().is_err());
}
