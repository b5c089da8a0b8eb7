use bundler::cli::Cli;
use bundler::cli::Commands;
use bundler::cli::ConfigSubcommand;

fn args(v: &[&str]) -> Vec<String> {
    v.iter().map(|s| s.to_string()).collect()
}

#[test]
fn test_cli_parsing() {
    // Test basic CLI parsing
    let cli =
        Cli::try_parse_from(args(&["bundler", "submit", "--config", "test.toml", "bundle.json"]))
            .unwrap();

    assert_eq!(cli.config, "test.toml");
    match cli.command {
        Commands::Submit { bundle_file } => {
            assert_eq!(bundle_file, "bundle.json");
        }
        _ => panic!("Expected Submit command"),
    }
}

#[test]
fn test_cli_with_verbose_flag() {
    let cli = Cli::try_parse_from(args(&["bundler", "--verbose", "status"])).unwrap();

    assert_eq!(cli.log_level, "debug");
    match cli.command {
        Commands::Status => {}
        _ => panic!("Expected Status command"),
    }
}

#[test]
fn test_cli_with_custom_log_format() {
    let cli = Cli::try_parse_from(args(&["bundler", "--log-format", "json", "health"])).unwrap();

    assert_eq!(cli.log_format, "json");
    match cli.command {
        Commands::Health => {}
        _ => panic!("Expected Health command"),
    }
}

#[test]
fn test_command_variants() {
    // Test all command variants can be parsed
    let cli = Cli::try_parse_from(args(&["bundler", "submit", "bundle.json"])).unwrap();
    assert!(matches!(cli.command, Commands::Submit { .. }));

    let cli = Cli::try_parse_from(args(&["bundler", "status"])).unwrap();
    assert!(matches!(cli.command, Commands::Status));

    let cli = Cli::try_parse_from(args(&["bundler", "health"])).unwrap();
    assert!(matches!(cli.command, Commands::Health));

    let cli = Cli::try_parse_from(args(&["bundler", "config", "show"])).unwrap();
    assert!(matches!(cli.command, Commands::Config { .. }));
}

#[test]
fn test_config_subcommands() {
    let cli = Cli::try_parse_from(args(&["bundler", "config", "show"])).unwrap();
    match cli.command {
        Commands::Config { subcommand } => {
            assert!(matches!(subcommand, ConfigSubcommand::Show));
        }
        _ => panic!("Expected Config command"),
    }

    let cli = Cli::try_parse_from(args(&["bundler", "config", "validate"])).unwrap();
    match cli.command {
        Commands::Config { subcommand } => {
            assert!(matches!(subcommand, ConfigSubcommand::Validate));
        }
        _ => panic!("Expected Config command"),
    }
}

#[test]
fn test_error_handling() {
    // Test that CLI handles missing required arguments
    let result = Cli::try_parse_from(args(&["bundler", "submit"])); // Missing bundle file
    assert!(result.is_err());

    // Test invalid log level
    let cli = Cli::try_parse_from(args(&["bundler", "--log-level", "invalid", "status"])).unwrap();
    assert_eq!(cli.log_level, "invalid"); // CLI accepts it, validation happens later
}

#[test]
fn test_default_values() {
    let cli = Cli::try_parse_from(args(&["bundler", "status"])).unwrap();

    assert_eq!(cli.config, "bundler.config.toml");
    assert_eq!(cli.log_level, "info");
    assert_eq!(cli.log_format, "pretty");
    assert!(!cli.verbose);
}
