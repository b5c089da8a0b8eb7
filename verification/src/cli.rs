use vstd::prelude::*;
use vstd::string::StringExecFns;
use crate::errors::BundlerError;
use crate::errors::BundlerResult;

verus! {

/// The bundler's command line: global flags, then one subcommand.
///
/// Grammar: `bundler [FLAGS] <command> [ARGS] [FLAGS]`. The flags
/// `--config`, `--log-level` and `--log-format` each take a value;
/// `--verbose` takes none and, when no explicit `--log-level` is given,
/// lowers the level to `debug`. Flags may stand before or after the
/// subcommand. Every other token is positional: the first names the
/// subcommand, the rest are its arguments.
#[derive(Debug, Clone)]
pub struct Cli {
    pub config: String,
    pub log_level: String,
    pub log_format: String,
    pub verbose: bool,
    pub command: Commands,
}

/// The subcommands the bundler understands.
#[derive(Debug, Clone)]
pub enum Commands {
    /// Simulate the bundle in FILE without submitting it.
    Simulate { file: String },
    /// Submit the bundle in FILE.
    Submit { bundle_file: String },
    /// Report the status of a submitted transaction.
    Status,
    /// Report the service's health.
    Health,
    /// Show or validate the configuration.
    Config { subcommand: ConfigSubcommand },
}

/// What the `config` subcommand is to do.
#[derive(Debug, Clone, Copy, PartialEq, Eq, Structural)]
pub enum ConfigSubcommand {
    Show,
    Validate,
}

/// Ghost image of a parsed command line.
pub ghost struct SpecCli {
    pub config: Seq<char>,
    pub log_level: Seq<char>,
    pub log_format: Seq<char>,
    pub verbose: bool,
    pub command: SpecCommand,
}

/// Ghost image of a subcommand.
pub ghost enum SpecCommand {
    Simulate(Seq<char>),
    Submit(Seq<char>),
    Status,
    Health,
    Config(ConfigSubcommand),
}

/// Ghost state of the token scan: the flag values seen so far and the
/// positional words in order.
pub ghost struct SpecScan {
    pub config: Option<Seq<char>>,
    pub log_level: Option<Seq<char>>,
    pub log_format: Option<Seq<char>>,
    pub verbose: bool,
    pub words: Seq<Seq<char>>,
}

impl Commands {
    /// The ghost image of this subcommand.
    pub open spec fn deep_spec(&self) -> SpecCommand {
        match self {
            Commands::Simulate { file } => SpecCommand::Simulate(file@),
            Commands::Submit { bundle_file } => SpecCommand::Submit(bundle_file@),
            Commands::Status => SpecCommand::Status,
            Commands::Health => SpecCommand::Health,
            Commands::Config { subcommand } => SpecCommand::Config(*subcommand),
        }
    }
}

impl Cli {
    /// The ghost image of this command line.
    pub open spec fn deep_spec(&self) -> SpecCli {
        SpecCli {
            config: self.config@,
            log_level: self.log_level@,
            log_format: self.log_format@,
            verbose: self.verbose,
            command: self.command.deep_spec(),
        }
    }

    /// Scans the tokens from position `i` under accumulated state `st`:
    /// flags update the state, every other token becomes a positional word.
    /// `None` is a malformed line (a value-taking flag at the end).
    pub open spec fn spec_scan(args: Seq<Seq<char>>, i: int, st: SpecScan) -> Option<SpecScan>
        decreases args.len() - i,
    {
        if i >= args.len() {
            Some(st)
        } else if args[i] == "--config"@ {
            if i + 1 < args.len() {
                Self::spec_scan(args, i + 2, SpecScan { config: Some(args[i + 1]), ..st })
            } else {
                None
            }
        } else if args[i] == "--log-level"@ {
            if i + 1 < args.len() {
                Self::spec_scan(args, i + 2, SpecScan { log_level: Some(args[i + 1]), ..st })
            } else {
                None
            }
        } else if args[i] == "--log-format"@ {
            if i + 1 < args.len() {
                Self::spec_scan(args, i + 2, SpecScan { log_format: Some(args[i + 1]), ..st })
            } else {
                None
            }
        } else if args[i] == "--verbose"@ {
            Self::spec_scan(args, i + 1, SpecScan { verbose: true, ..st })
        } else {
            Self::spec_scan(args, i + 1, SpecScan { words: st.words.push(args[i]), ..st })
        }
    }

    /// The scan state before any token is read.
    pub open spec fn spec_scan_init() -> SpecScan {
        SpecScan {
            config: None,
            log_level: None,
            log_format: None,
            verbose: false,
            words: Seq::empty(),
        }
    }

    /// Interprets a finished scan: the first word names the subcommand, the
    /// rest must be exactly its arguments; defaults fill the flags that were
    /// not given.
    pub open spec fn spec_interpret(st: SpecScan) -> Option<SpecCli> {
        if st.words.len() == 0 {
            None
        } else {
            let command = if st.words[0] == "simulate"@ {
                if st.words.len() == 2 {
                    Some(SpecCommand::Simulate(st.words[1]))
                } else {
                    None
                }
            } else if st.words[0] == "submit"@ {
                if st.words.len() == 2 {
                    Some(SpecCommand::Submit(st.words[1]))
                } else {
                    None
                }
            } else if st.words[0] == "status"@ {
                if st.words.len() == 1 {
                    Some(SpecCommand::Status)
                } else {
                    None
                }
            } else if st.words[0] == "health"@ {
                if st.words.len() == 1 {
                    Some(SpecCommand::Health)
                } else {
                    None
                }
            } else if st.words[0] == "config"@ {
                if st.words.len() == 2 && st.words[1] == "show"@ {
                    Some(SpecCommand::Config(ConfigSubcommand::Show))
                } else if st.words.len() == 2 && st.words[1] == "validate"@ {
                    Some(SpecCommand::Config(ConfigSubcommand::Validate))
                } else {
                    None
                }
            } else {
                None
            };
            match command {
                None => None,
                Some(command) => Some(
                    SpecCli {
                        config: match st.config {
                            Some(c) => c,
                            None => "bundler.config.toml"@,
                        },
                        log_level: match st.log_level {
                            Some(l) => l,
                            None => if st.verbose {
                                "debug"@
                            } else {
                                "info"@
                            },
                        },
                        log_format: match st.log_format {
                            Some(f) => f,
                            None => "pretty"@,
                        },
                        verbose: st.verbose,
                        command,
                    },
                ),
            }
        }
    }

    /// What parsing a whole argument vector (program name first) yields.
    pub open spec fn spec_parse(args: Seq<Seq<char>>) -> Option<SpecCli> {
        if args.len() < 1 {
            None
        } else {
            match Self::spec_scan(args, 1, Self::spec_scan_init()) {
                None => None,
                Some(st) => Self::spec_interpret(st),
            }
        }
    }

    /// Parses an argument vector, program name first. Fails with
    /// `InvalidInput` exactly on the lines `spec_parse` rejects.
    pub fn try_parse_from(args: Vec<String>) -> (r: BundlerResult<Cli>)
        ensures
            r is Ok <==> Self::spec_parse(args.deep_view()) is Some,
            r matches Ok(c) ==> Self::spec_parse(args.deep_view()) == Some(c.deep_spec()),
            r matches Err(e) ==> e is InvalidInput,
    {
        let ghost dv = args.deep_view();
        if args.len() < 1 {
            return Err(BundlerError::InvalidInput("empty argument list".to_owned()));
        }
        let n = args.len();
        let mut config: Option<String> = None;
        let mut log_level: Option<String> = None;
        let mut log_format: Option<String> = None;
        let mut verbose: bool = false;
        let mut words: Vec<String> = Vec::new();
        let mut i: usize = 1;
        proof {
            assert(words.deep_view() =~= Seq::<Seq<char>>::empty());
        }
        while i < n
            invariant
                n == args.len(),
                dv == args.deep_view(),
                dv.len() == n,
                1 <= i <= n,
                Self::spec_scan(dv, 1, Self::spec_scan_init()) == Self::spec_scan(
                    dv,
                    i as int,
                    SpecScan {
                        config: match config {
                            Some(c) => Some(c@),
                            None => None,
                        },
                        log_level: match log_level {
                            Some(l) => Some(l@),
                            None => None,
                        },
                        log_format: match log_format {
                            Some(f) => Some(f@),
                            None => None,
                        },
                        verbose: verbose,
                        words: words.deep_view(),
                    },
                ),
            decreases n - i,
        {
            let ghost i0 = i as int;
            let ghost st0 = SpecScan {
                config: match config {
                    Some(ref c) => Some(c@),
                    None => None,
                },
                log_level: match log_level {
                    Some(ref l) => Some(l@),
                    None => None,
                },
                log_format: match log_format {
                    Some(ref f) => Some(f@),
                    None => None,
                },
                verbose: verbose,
                words: words.deep_view(),
            };
            proof {
                assert(dv[i0] == args@[i0]@);
            }
            if str_is(&args[i], "--config") {
                if i + 1 < n {
                    config = Some(args[i + 1].clone());
                    i = i + 2;
                    proof {
                        assert(Self::spec_scan(dv, i0, st0) == Self::spec_scan(
                            dv,
                            i0 + 2,
                            SpecScan { config: Some(dv[i0 + 1]), ..st0 },
                        ));
                        assert(dv[i0 + 1] == args@[i0 + 1]@);
                    }
                } else {
                    return Err(BundlerError::InvalidInput("--config needs a value".to_owned()));
                }
            } else if str_is(&args[i], "--log-level") {
                if i + 1 < n {
                    log_level = Some(args[i + 1].clone());
                    i = i + 2;
                    proof {
                        assert(Self::spec_scan(dv, i0, st0) == Self::spec_scan(
                            dv,
                            i0 + 2,
                            SpecScan { log_level: Some(dv[i0 + 1]), ..st0 },
                        ));
                        assert(dv[i0 + 1] == args@[i0 + 1]@);
                    }
                } else {
                    return Err(BundlerError::InvalidInput("--log-level needs a value".to_owned()));
                }
            } else if str_is(&args[i], "--log-format") {
                if i + 1 < n {
                    log_format = Some(args[i + 1].clone());
                    i = i + 2;
                    proof {
                        assert(Self::spec_scan(dv, i0, st0) == Self::spec_scan(
                            dv,
                            i0 + 2,
                            SpecScan { log_format: Some(dv[i0 + 1]), ..st0 },
                        ));
                        assert(dv[i0 + 1] == args@[i0 + 1]@);
                    }
                } else {
                    return Err(BundlerError::InvalidInput("--log-format needs a value".to_owned()));
                }
            } else if str_is(&args[i], "--verbose") {
                verbose = true;
                i = i + 1;
                proof {
                    assert(Self::spec_scan(dv, i0, st0) == Self::spec_scan(
                        dv,
                        i0 + 1,
                        SpecScan { verbose: true, ..st0 },
                    ));
                }
            } else {
                words.push(args[i].clone());
                i = i + 1;
                proof {
                    assert(Self::spec_scan(dv, i0, st0) == Self::spec_scan(
                        dv,
                        i0 + 1,
                        SpecScan { words: st0.words.push(dv[i0]), ..st0 },
                    ));
                    assert(words.deep_view() =~= st0.words.push(dv[i0]));
                }
            }
        }
        let ghost scanned = SpecScan {
            config: match config {
                Some(ref c) => Some(c@),
                None => None,
            },
            log_level: match log_level {
                Some(ref l) => Some(l@),
                None => None,
            },
            log_format: match log_format {
                Some(ref f) => Some(f@),
                None => None,
            },
            verbose: verbose,
            words: words.deep_view(),
        };
        proof {
            assert(Self::spec_scan(dv, 1, Self::spec_scan_init()) == Some(scanned));
        }
        if words.len() == 0 {
            return Err(BundlerError::InvalidInput("a subcommand is required".to_owned()));
        }
        let command: Commands = if str_is(&words[0], "simulate") {
            if words.len() == 2 {
                Commands::Simulate { file: words[1].clone() }
            } else {
                return Err(BundlerError::InvalidInput("simulate takes one file".to_owned()));
            }
        } else if str_is(&words[0], "submit") {
            if words.len() == 2 {
                Commands::Submit { bundle_file: words[1].clone() }
            } else {
                return Err(BundlerError::InvalidInput("submit takes one file".to_owned()));
            }
        } else if str_is(&words[0], "status") {
            if words.len() == 1 {
                Commands::Status
            } else {
                return Err(BundlerError::InvalidInput("status takes no argument".to_owned()));
            }
        } else if str_is(&words[0], "health") {
            if words.len() == 1 {
                Commands::Health
            } else {
                return Err(BundlerError::InvalidInput("health takes no argument".to_owned()));
            }
        } else if str_is(&words[0], "config") {
            if words.len() == 2 && str_is(&words[1], "show") {
                Commands::Config { subcommand: ConfigSubcommand::Show }
            } else if words.len() == 2 && str_is(&words[1], "validate") {
                Commands::Config { subcommand: ConfigSubcommand::Validate }
            } else {
                return Err(BundlerError::InvalidInput("config takes show or validate".to_owned()));
            }
        } else {
            return Err(BundlerError::InvalidInput("unknown subcommand".to_owned()));
        };
        let cli = Cli {
            config: match config {
                Some(c) => c,
                None => String::from_str("bundler.config.toml"),
            },
            log_level: match log_level {
                Some(l) => l,
                None => if verbose {
                    String::from_str("debug")
                } else {
                    String::from_str("info")
                },
            },
            log_format: match log_format {
                Some(f) => f,
                None => String::from_str("pretty"),
            },
            verbose,
            command,
        };
        Ok(cli)
    }
}

/// Whether a string equals the given literal, character for character.
fn str_is(t: &String, lit: &str) -> (r: bool)
    ensures
        r == (t@ == lit@),
{
    let owned: String = lit.to_owned();
    *t == owned
}

/// The log levels the bundler knows.
#[derive(Debug, Clone, Copy, PartialEq, Eq, Structural)]
pub enum LogLevel {
    Trace,
    Debug,
    Info,
    Warn,
    Error,
}

/// Maps a level name to the level it names.
pub open spec fn spec_parse_log_level(s: Seq<char>) -> Option<LogLevel> {
    if s == "trace"@ {
        Some(LogLevel::Trace)
    } else if s == "debug"@ {
        Some(LogLevel::Debug)
    } else if s == "info"@ {
        Some(LogLevel::Info)
    } else if s == "warn"@ {
        Some(LogLevel::Warn)
    } else if s == "error"@ {
        Some(LogLevel::Error)
    } else {
        None
    }
}

/// Parses a log-level name; unknown names are rejected.
pub fn parse_log_level(s: &String) -> (r: Option<LogLevel>)
    ensures
        r == spec_parse_log_level(s@),
{
    if str_is(s, "trace") {
        Some(LogLevel::Trace)
    } else if str_is(s, "debug") {
        Some(LogLevel::Debug)
    } else if str_is(s, "info") {
        Some(LogLevel::Info)
    } else if str_is(s, "warn") {
        Some(LogLevel::Warn)
    } else if str_is(s, "error") {
        Some(LogLevel::Error)
    } else {
        None
    }
}

} // verus!
