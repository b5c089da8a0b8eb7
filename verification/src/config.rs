use vstd::prelude::*;
use vstd::string::StringExecFns;
use crate::errors::BundlerError;
use crate::errors::BundlerResult;
use crate::types::Pubkey;
use crate::types::RpcEndpoint;
use crate::types::FeeStrategy;
use crate::types::JitoConfig;
use crate::types::SignerConfig;
use crate::types::SignerType;

verus! {

/// RPC endpoint set and transport knobs.
#[derive(Debug, Clone)]
pub struct RpcConfig {
    pub endpoints: Vec<RpcEndpoint>,
    pub commitment: String,
    pub timeout_seconds: u64,
    pub max_retries: u32,
    pub pool_size: u32,
    pub backoff_base_ms: u64,
    pub backoff_max_ms: u64,
}

/// Security policy: what a bundle may contain.
#[derive(Debug, Clone)]
pub struct SecurityConfig {
    pub max_compute_units: u32,
    pub max_fee_lamports: u64,
    pub program_whitelist: Vec<Pubkey>,
    pub validate_instructions: bool,
    pub max_bundle_size: u32,
    pub require_simulation: bool,
    pub max_writable_accounts: u32,
}

/// Which keys sign, and how.
#[derive(Debug, Clone)]
pub struct SigningConfig {
    pub fee_payer: SignerConfig,
    pub additional_signers: Vec<SignerConfig>,
    pub parallel_signing: bool,
}

/// Log level and format.
#[derive(Debug, Clone)]
pub struct LoggingConfig {
    pub level: String,
    pub format: String,
    pub file_enabled: bool,
    pub file_path: Option<String>,
    pub include_timestamps: bool,
}

/// HTTP front-end knobs.
#[derive(Debug, Clone)]
pub struct ServiceConfig {
    pub bind_address: String,
    pub port: u16,
    pub request_timeout_seconds: u64,
    pub max_body_size_bytes: u64,
    pub cors: CorsConfig,
    pub rate_limit: RateLimitConfig,
}

/// Cross-origin policy of the HTTP front-end.
#[derive(Debug, Clone)]
pub struct CorsConfig {
    pub allowed_origins: Vec<String>,
    pub allowed_methods: Vec<String>,
    pub allowed_headers: Vec<String>,
    pub allow_credentials: bool,
}

/// Per-client rate limiting of the HTTP front-end.
#[derive(Debug, Clone)]
pub struct RateLimitConfig {
    pub requests_per_minute: u32,
    pub burst_size: u32,
    pub enabled: bool,
}

/// Throughput tuning.
#[derive(Debug, Clone)]
pub struct PerformanceConfig {
    pub worker_threads: u32,
    pub batch_size: u32,
    pub simulation_cache_size: u32,
    pub cache_ttl_seconds: u64,
    pub metrics_enabled: bool,
}

pub fn default_commitment() -> (r: String)
    ensures
        r@ == "confirmed"@,
{
    String::from_str("confirmed")
}

pub fn default_rpc_timeout() -> (r: u64)
    ensures
        r == 30,
{
    30
}

pub fn default_max_retries() -> (r: u32)
    ensures
        r == 3,
{
    3
}

pub fn default_pool_size() -> (r: u32)
    ensures
        r == 10,
{
    10
}

pub fn default_backoff_base_ms() -> (r: u64)
    ensures
        r == 100,
{
    100
}

pub fn default_backoff_max_ms() -> (r: u64)
    ensures
        r == 10000,
{
    10000
}

pub fn default_max_compute_units() -> (r: u32)
    ensures
        r == 1_400_000,
{
    1_400_000
}

pub fn default_max_fee_lamports() -> (r: u64)
    ensures
        r == 100_000,
{
    100_000
}

pub fn default_validate_instructions() -> (r: bool)
    ensures
        r,
{
    true
}

pub fn default_max_bundle_size() -> (r: u32)
    ensures
        r == 5,
{
    5
}

pub fn default_require_simulation() -> (r: bool)
    ensures
        r,
{
    true
}

pub fn default_max_writable_accounts() -> (r: u32)
    ensures
        r == 64,
{
    64
}

pub fn default_parallel_signing() -> (r: bool)
    ensures
        r,
{
    true
}

pub fn default_log_level() -> (r: String)
    ensures
        r@ == "info"@,
{
    String::from_str("info")
}

pub fn default_log_format() -> (r: String)
    ensures
        r@ == "pretty"@,
{
    String::from_str("pretty")
}

pub fn default_include_timestamps() -> (r: bool)
    ensures
        r,
{
    true
}

pub fn default_bind_address() -> (r: String)
    ensures
        r@ == "127.0.0.1"@,
{
    String::from_str("127.0.0.1")
}

pub fn default_port() -> (r: u16)
    ensures
        r == 8080,
{
    8080
}

pub fn default_request_timeout() -> (r: u64)
    ensures
        r == 30,
{
    30
}

pub fn default_max_body_size() -> (r: u64)
    ensures
        r == 1048576,
{
    1048576
}

pub fn default_allowed_origins() -> (r: Vec<String>)
    ensures
        r@.len() == 1,
        r@[0]@ == "*"@,
{
    let mut v: Vec<String> = Vec::new();
    v.push(String::from_str("*"));
    v
}

pub fn default_allowed_methods() -> (r: Vec<String>)
    ensures
        r@.len() == 2,
        r@[0]@ == "GET"@,
        r@[1]@ == "POST"@,
{
    let mut v: Vec<String> = Vec::new();
    v.push(String::from_str("GET"));
    v.push(String::from_str("POST"));
    v
}

pub fn default_allowed_headers() -> (r: Vec<String>)
    ensures
        r@.len() == 2,
        r@[0]@ == "Content-Type"@,
        r@[1]@ == "Authorization"@,
{
    let mut v: Vec<String> = Vec::new();
    v.push(String::from_str("Content-Type"));
    v.push(String::from_str("Authorization"));
    v
}

pub fn default_requests_per_minute() -> (r: u32)
    ensures
        r == 60,
{
    60
}

pub fn default_burst_size() -> (r: u32)
    ensures
        r == 10,
{
    10
}

pub fn default_rate_limit_enabled() -> (r: bool)
    ensures
        r,
{
    true
}

pub fn default_batch_size() -> (r: u32)
    ensures
        r == 10,
{
    10
}

pub fn default_cache_size() -> (r: u32)
    ensures
        r == 1000,
{
    1000
}

pub fn default_cache_ttl() -> (r: u64)
    ensures
        r == 300,
{
    300
}

pub fn default_metrics_enabled() -> (r: bool)
    ensures
        r,
{
    true
}

/// Relies on num_cpus::get: the number of available CPUs, always at
/// least one.
#[verifier::external_body]
fn cpu_count() -> (r: usize)
    ensures
        r >= 1,
{
    num_cpus::get()
}

/// The stock worker-thread count: one per available CPU.
pub fn default_worker_threads() -> (r: u32)
    ensures
        r >= 1,
{
    let n = cpu_count();
    if n >= 0xffff_ffff {
        0xffff_ffff
    } else {
        n as u32
    }
}

/// The system program's address: the all-zero key.
pub fn system_program() -> (r: Pubkey)
    ensures
        r.wf(),
        forall|i: int| 0 <= i < 32 ==> r.bytes@[i] == 0u8,
{
    Pubkey::zeroed()
}

impl SecurityConfig {
    /// Whether `program_id` passes the allow-list. An empty allow-list
    /// allows every program.
    pub open spec fn spec_is_program_whitelisted(&self, program_id: &Pubkey) -> bool {
        self.program_whitelist@.len() == 0
            || exists|i: int|
                0 <= i < self.program_whitelist@.len()
                    && self.program_whitelist@[i].bytes@ == program_id.bytes@
    }

    /// Checks a program against the allow-list; an empty allow-list allows
    /// every program.
    pub fn is_program_whitelisted(&self, program_id: &Pubkey) -> (r: bool)
        ensures
            r == self.spec_is_program_whitelisted(program_id),
    {
        if self.program_whitelist.len() == 0 {
            return true;
        }
        let n = self.program_whitelist.len();
        let mut i: usize = 0;
        while i < n
            invariant
                n == self.program_whitelist@.len(),
                i <= n,
                forall|j: int| 0 <= j < i ==> self.program_whitelist@[j].bytes@ != program_id.bytes@,
            decreases n - i,
        {
            if &self.program_whitelist[i] == program_id {
                return true;
            }
            i = i + 1;
        }
        false
    }
}

impl Default for SecurityConfig {
    /// The stock policy: compute ceiling 1.4M units, fee ceiling 100k
    /// lamports, only the system program allowed, validation on, at most 5
    /// instructions and 64 writable accounts per instruction.
    fn default() -> (r: SecurityConfig)
        ensures
            r.max_compute_units == 1_400_000,
            r.max_fee_lamports == 100_000,
            r.program_whitelist@.len() == 1,
            forall|i: int| 0 <= i < 32 ==> r.program_whitelist@[0].bytes@[i] == 0u8,
            r.program_whitelist@[0].wf(),
            r.validate_instructions,
            r.max_bundle_size == 5,
            r.require_simulation,
            r.max_writable_accounts == 64,
    {
        let mut whitelist: Vec<Pubkey> = Vec::new();
        whitelist.push(system_program());
        SecurityConfig {
            max_compute_units: default_max_compute_units(),
            max_fee_lamports: default_max_fee_lamports(),
            program_whitelist: whitelist,
            validate_instructions: default_validate_instructions(),
            max_bundle_size: default_max_bundle_size(),
            require_simulation: default_require_simulation(),
            max_writable_accounts: default_max_writable_accounts(),
        }
    }
}

/// The full configuration of the bundler.
#[derive(Debug, Clone)]
pub struct BundlerConfig {
    pub rpc: RpcConfig,
    pub fees: FeeStrategy,
    pub security: SecurityConfig,
    pub signing: SigningConfig,
    pub jito: Option<JitoConfig>,
    pub logging: LoggingConfig,
    pub service: ServiceConfig,
    pub performance: PerformanceConfig,
}

impl BundlerConfig {
    /// A configuration is valid when every endpoint has a non-empty URL and
    /// a positive weight, every ceiling and size is positive, and the
    /// service and worker settings are positive.
    pub open spec fn spec_valid(&self) -> bool {
        &&& self.rpc.endpoints@.len() > 0
        &&& forall|i: int|
            0 <= i < self.rpc.endpoints@.len() ==> (#[trigger] self.rpc.endpoints@[i]).url@.len()
                > 0 && self.rpc.endpoints@[i].weight > 0
        &&& self.security.max_compute_units > 0
        &&& self.security.max_fee_lamports > 0
        &&& self.security.max_bundle_size > 0
        &&& self.security.max_writable_accounts > 0
        &&& self.service.port > 0
        &&& self.service.request_timeout_seconds > 0
        &&& self.performance.worker_threads > 0
        &&& self.performance.batch_size > 0
    }

    /// Checks the configuration; returns a `Config` error exactly when some
    /// rule of `spec_valid` is broken.
    pub fn validate(&self) -> (r: BundlerResult<()>)
        ensures
            r is Ok <==> self.spec_valid(),
            r matches Err(e) ==> e is Config,
    {
        if self.rpc.endpoints.len() == 0 {
            return Err(BundlerError::Config("At least one RPC endpoint is required".to_owned()));
        }
        let n = self.rpc.endpoints.len();
        let mut i: usize = 0;
        while i < n
            invariant
                n == self.rpc.endpoints@.len(),
                i <= n,
                forall|j: int|
                    0 <= j < i ==> (#[trigger] self.rpc.endpoints@[j]).url@.len() > 0
                        && self.rpc.endpoints@[j].weight > 0,
            decreases n - i,
        {
            if self.rpc.endpoints[i].url.as_str().is_empty() {
                return Err(BundlerError::Config("RPC endpoint URL cannot be empty".to_owned()));
            }
            if self.rpc.endpoints[i].weight == 0 {
                return Err(
                    BundlerError::Config("RPC endpoint weight must be greater than 0".to_owned()),
                );
            }
            i = i + 1;
        }
        if self.security.max_compute_units == 0 {
            return Err(BundlerError::Config("Max compute units must be greater than 0".to_owned()));
        }
        if self.security.max_fee_lamports == 0 {
            return Err(BundlerError::Config("Max fee lamports must be greater than 0".to_owned()));
        }
        if self.security.max_bundle_size == 0 {
            return Err(BundlerError::Config("Max bundle size must be greater than 0".to_owned()));
        }
        if self.security.max_writable_accounts == 0 {
            return Err(
                BundlerError::Config("Max writable accounts must be greater than 0".to_owned()),
            );
        }
        if self.service.port == 0 {
            return Err(BundlerError::Config("Service port must be greater than 0".to_owned()));
        }
        if self.service.request_timeout_seconds == 0 {
            return Err(BundlerError::Config("Request timeout must be greater than 0".to_owned()));
        }
        if self.performance.worker_threads == 0 {
            return Err(BundlerError::Config("Worker threads must be greater than 0".to_owned()));
        }
        if self.performance.batch_size == 0 {
            return Err(BundlerError::Config("Batch size must be greater than 0".to_owned()));
        }
        Ok(())
    }

    /// The endpoint with the greatest weight; on equal weights, the last of
    /// them. Callers must configure at least one endpoint.
    pub fn primary_rpc_endpoint(&self) -> (r: &RpcEndpoint)
        requires
            self.rpc.endpoints@.len() > 0,
        ensures
            exists|i: int|
                0 <= i < self.rpc.endpoints@.len() && r == &self.rpc.endpoints@[i]
                    && forall|j: int|
                    0 <= j < self.rpc.endpoints@.len() ==> (#[trigger] self.rpc.endpoints@[j]).weight
                        <= self.rpc.endpoints@[i].weight,
    {
        let n = self.rpc.endpoints.len();
        let mut best: usize = 0;
        let mut i: usize = 1;
        while i < n
            invariant
                n == self.rpc.endpoints@.len(),
                1 <= i <= n,
                best < i,
                forall|j: int|
                    0 <= j < i ==> (#[trigger] self.rpc.endpoints@[j]).weight
                        <= self.rpc.endpoints@[best as int].weight,
            decreases n - i,
        {
            if self.rpc.endpoints[i].weight >= self.rpc.endpoints[best].weight {
                best = i;
            }
            i = i + 1;
        }
        &self.rpc.endpoints[best]
    }

    /// Whether a program passes this configuration's allow-list.
    pub fn is_program_whitelisted(&self, program_id: &Pubkey) -> (r: bool)
        ensures
            r == self.security.spec_is_program_whitelisted(program_id),
    {
        self.security.is_program_whitelisted(program_id)
    }

    /// The endpoints ordered by descending weight, as indices into
    /// `rpc.endpoints`; equal weights keep their configured order.
    pub fn rpc_endpoints_by_weight(&self) -> (r: Vec<usize>)
        ensures
            r@.len() == self.rpc.endpoints@.len(),
            forall|p: int| 0 <= p < r@.len() ==> (#[trigger] r@[p]) < self.rpc.endpoints@.len(),
            forall|p: int, q: int| 0 <= p < q < r@.len() ==> r@[p] != r@[q],
            forall|p: int, q: int|
                0 <= p < q < r@.len() ==> self.rpc.endpoints@[#[trigger] r@[p] as int].weight
                    >= self.rpc.endpoints@[#[trigger] r@[q] as int].weight,
            forall|p: int, q: int|
                0 <= p < q < r@.len() && self.rpc.endpoints@[#[trigger] r@[p] as int].weight
                    == self.rpc.endpoints@[#[trigger] r@[q] as int].weight ==> r@[p] < r@[q],
    {
        let eps = &self.rpc.endpoints;
        let n = eps.len();
        let mut out: Vec<usize> = Vec::new();
        let mut i: usize = 0;
        while i < n
            invariant
                n == eps@.len(),
                eps == self.rpc.endpoints,
                i <= n,
                out@.len() == i,
                forall|p: int| 0 <= p < out@.len() ==> (#[trigger] out@[p]) < i,
                forall|p: int, q: int| 0 <= p < q < out@.len() ==> out@[p] != out@[q],
                forall|p: int, q: int|
                    0 <= p < q < out@.len() ==> eps@[#[trigger] out@[p] as int].weight
                        >= eps@[#[trigger] out@[q] as int].weight,
                forall|p: int, q: int|
                    0 <= p < q < out@.len() && eps@[#[trigger] out@[p] as int].weight
                        == eps@[#[trigger] out@[q] as int].weight ==> out@[p] < out@[q],
            decreases n - i,
        {
            let w = eps[i].weight;
            let mut pos: usize = 0;
            while pos < out.len() && eps[out[pos]].weight >= w
                invariant
                    n == eps@.len(),
                    eps == self.rpc.endpoints,
                    i < n,
                    w == eps@[i as int].weight,
                    pos <= out@.len(),
                    forall|p: int| 0 <= p < out@.len() ==> (#[trigger] out@[p]) < i,
                    forall|q: int| 0 <= q < pos ==> eps@[#[trigger] out@[q] as int].weight >= w,
                decreases out@.len() - pos,
            {
                pos = pos + 1;
            }
            let ghost out0 = out@;
            out.insert(pos, i);
            proof {
                assert forall|p: int| 0 <= p < out@.len() implies (#[trigger] out@[p]) < i + 1 by {
                    if p < pos {
                        assert(out@[p] == out0[p]);
                    } else if p > pos {
                        assert(out@[p] == out0[p - 1]);
                    }
                }
                assert forall|p: int, q: int| 0 <= p < q < out@.len() implies out@[p] != out@[
                q] by {
                    if p != pos as int && q != pos as int {
                        let p0 = if p < pos {
                            p
                        } else {
                            p - 1
                        };
                        let q0 = if q < pos {
                            q
                        } else {
                            q - 1
                        };
                        assert(out@[p] == out0[p0] && out@[q] == out0[q0]);
                    }
                }
                assert forall|p: int, q: int|
                    0 <= p < q < out@.len() implies eps@[#[trigger] out@[p] as int].weight
                    >= eps@[#[trigger] out@[q] as int].weight by {
                    if p == pos as int {
                        assert(out@[q] == out0[q - 1]);
                        if pos < out0.len() {
                            assert(eps@[out0[pos as int] as int].weight < w);
                        }
                    } else if q == pos as int {
                        assert(out@[p] == out0[p]);
                    } else {
                        let p0 = if p < pos {
                            p
                        } else {
                            p - 1
                        };
                        let q0 = if q < pos {
                            q
                        } else {
                            q - 1
                        };
                        assert(out@[p] == out0[p0] && out@[q] == out0[q0]);
                    }
                }
                assert forall|p: int, q: int|
                    0 <= p < q < out@.len() && eps@[#[trigger] out@[p] as int].weight == eps@[
                    #[trigger] out@[q] as int].weight implies out@[p] < out@[q] by {
                    if p == pos as int {
                        assert(out@[q] == out0[q - 1]);
                        if pos < out0.len() {
                            assert(eps@[out0[pos as int] as int].weight < w);
                        }
                        assert(eps@[out0[q - 1] as int].weight < w);
                    } else if q == pos as int {
                        assert(out@[p] == out0[p]);
                        assert(out@[q] == i);
                    } else {
                        let p0 = if p < pos {
                            p
                        } else {
                            p - 1
                        };
                        let q0 = if q < pos {
                            q
                        } else {
                            q - 1
                        };
                        assert(out@[p] == out0[p0] && out@[q] == out0[q0]);
                    }
                }
            }
            i = i + 1;
        }
        out
    }
}

impl Default for BundlerConfig {
    /// The stock configuration: one mainnet endpoint at full weight, the
    /// stock fee strategy and security policy, an environment-loaded fee
    /// payer, and modest service and performance settings. The result
    /// passes `validate`.
    fn default() -> (r: BundlerConfig)
        ensures
            r.rpc.endpoints@.len() == 1,
            r.rpc.endpoints@[0].url@ == "https://api.mainnet-beta.solana.com"@,
            r.rpc.endpoints@[0].weight == 100,
            r.rpc.commitment@ == "confirmed"@,
            r.rpc.timeout_seconds == 30,
            r.rpc.max_retries == 3,
            r.rpc.backoff_base_ms == 100,
            r.rpc.backoff_max_ms == 10000,
            r.fees.base_percentile == 75,
            r.fees.buffer_percent == 20,
            r.fees.adaptive,
            r.fees.enable_bump,
            r.fees.max_bump_attempts == 3,
            r.fees.max_price_lamports == 100000,
            r.security.max_compute_units == 1_400_000,
            r.security.max_fee_lamports == 100_000,
            r.security.max_bundle_size == 5,
            r.security.max_writable_accounts == 64,
            r.security.validate_instructions,
            r.security.require_simulation,
            r.security.program_whitelist@.len() == 1,
            r.security.program_whitelist@[0].wf(),
            forall|i: int| 0 <= i < 32 ==> r.security.program_whitelist@[0].bytes@[i] == 0u8,
            r.signing.fee_payer.signer_type is Env,
            r.logging.level@ == "info"@,
            r.service.port == 8080,
            r.performance.worker_threads >= 1,
            r.performance.batch_size == 10,
            r.spec_valid(),
    {
        let r = BundlerConfig {
            rpc: RpcConfig {
                endpoints: {
                    let mut eps: Vec<RpcEndpoint> = Vec::new();
                    eps.push(
                        RpcEndpoint {
                            url: String::from_str("https://api.mainnet-beta.solana.com"),
                            weight: 100,
                            supports_jito: false,
                            auth_token: None,
                        },
                    );
                    eps
                },
                commitment: default_commitment(),
                timeout_seconds: default_rpc_timeout(),
                max_retries: default_max_retries(),
                pool_size: default_pool_size(),
                backoff_base_ms: default_backoff_base_ms(),
                backoff_max_ms: default_backoff_max_ms(),
            },
            fees: FeeStrategy::default(),
            security: SecurityConfig::default(),
            signing: SigningConfig {
                fee_payer: SignerConfig {
                    signer_type: SignerType::Env {
                        var_name: String::from_str("SOLANA_PRIVATE_KEY"),
                    },
                    alias: Some(String::from_str("fee_payer")),
                },
                additional_signers: Vec::new(),
                parallel_signing: default_parallel_signing(),
            },
            jito: None,
            logging: LoggingConfig {
                level: default_log_level(),
                format: default_log_format(),
                file_enabled: false,
                file_path: None,
                include_timestamps: default_include_timestamps(),
            },
            service: ServiceConfig {
                bind_address: default_bind_address(),
                port: default_port(),
                request_timeout_seconds: default_request_timeout(),
                max_body_size_bytes: default_max_body_size(),
                cors: CorsConfig {
                    allowed_origins: default_allowed_origins(),
                    allowed_methods: default_allowed_methods(),
                    allowed_headers: default_allowed_headers(),
                    allow_credentials: false,
                },
                rate_limit: RateLimitConfig {
                    requests_per_minute: default_requests_per_minute(),
                    burst_size: default_burst_size(),
                    enabled: default_rate_limit_enabled(),
                },
            },
            performance: PerformanceConfig {
                worker_threads: default_worker_threads(),
                batch_size: default_batch_size(),
                simulation_cache_size: default_cache_size(),
                cache_ttl_seconds: default_cache_ttl(),
                metrics_enabled: default_metrics_enabled(),
            },
        };
        proof {
            reveal_strlit("https://api.mainnet-beta.solana.com");
        }
        r
    }
}

/// Builder for [`SecurityConfig`].
pub struct SecurityConfigBuilder {
    pub config: SecurityConfig,
}

impl SecurityConfigBuilder {
    /// Starts from the stock policy.
    pub fn new() -> (r: SecurityConfigBuilder)
        ensures
            r.config.max_compute_units == 1_400_000,
            r.config.max_fee_lamports == 100_000,
            r.config.program_whitelist@.len() == 1,
            r.config.validate_instructions,
            r.config.max_bundle_size == 5,
            r.config.require_simulation,
            r.config.max_writable_accounts == 64,
    {
        SecurityConfigBuilder { config: SecurityConfig::default() }
    }

    pub fn with_program_whitelist(self, programs: Vec<Pubkey>) -> (r: SecurityConfigBuilder)
        ensures
            r.config.program_whitelist@ == programs@,
            (r.config == SecurityConfig { program_whitelist: programs, ..self.config }),
    {
        let mut c = self.config;
        c.program_whitelist = programs;
        SecurityConfigBuilder { config: c }
    }

    pub fn with_max_compute_units(self, max_compute_units: u32) -> (r: SecurityConfigBuilder)
        ensures
            (r.config == SecurityConfig { max_compute_units, ..self.config }),
    {
        let mut c = self.config;
        c.max_compute_units = max_compute_units;
        SecurityConfigBuilder { config: c }
    }

    pub fn with_max_fee_lamports(self, max_fee_lamports: u64) -> (r: SecurityConfigBuilder)
        ensures
            (r.config == SecurityConfig { max_fee_lamports, ..self.config }),
    {
        let mut c = self.config;
        c.max_fee_lamports = max_fee_lamports;
        SecurityConfigBuilder { config: c }
    }

    pub fn with_validate_instructions(self, validate: bool) -> (r: SecurityConfigBuilder)
        ensures
            (r.config == SecurityConfig { validate_instructions: validate, ..self.config }),
    {
        let mut c = self.config;
        c.validate_instructions = validate;
        SecurityConfigBuilder { config: c }
    }

    pub fn with_max_bundle_size(self, max_bundle_size: u32) -> (r: SecurityConfigBuilder)
        ensures
            (r.config == SecurityConfig { max_bundle_size, ..self.config }),
    {
        let mut c = self.config;
        c.max_bundle_size = max_bundle_size;
        SecurityConfigBuilder { config: c }
    }

    pub fn with_require_simulation(self, require_simulation: bool) -> (r: SecurityConfigBuilder)
        ensures
            (r.config == SecurityConfig { require_simulation, ..self.config }),
    {
        let mut c = self.config;
        c.require_simulation = require_simulation;
        SecurityConfigBuilder { config: c }
    }

    pub fn with_max_writable_accounts(self, max_writable_accounts: u32) -> (r: SecurityConfigBuilder)
        ensures
            (r.config == SecurityConfig { max_writable_accounts, ..self.config }),
    {
        let mut c = self.config;
        c.max_writable_accounts = max_writable_accounts;
        SecurityConfigBuilder { config: c }
    }

    /// Hands the policy out; rejects a zero writable-account ceiling.
    pub fn build(self) -> (r: BundlerResult<SecurityConfig>)
        ensures
            r is Ok <==> self.config.max_writable_accounts > 0,
            r matches Ok(c) ==> c == self.config,
            r matches Err(e) ==> e is Config,
    {
        if self.config.max_writable_accounts == 0 {
            return Err(
                BundlerError::Config("max_writable_accounts must be greater than 0".to_owned()),
            );
        }
        Ok(self.config)
    }
}

} // verus!

verus! {

/// Builder for [`BundlerConfig`].
pub struct BundlerConfigBuilder {
    pub config: BundlerConfig,
}

impl BundlerConfigBuilder {
    /// Starts from the stock configuration.
    pub fn new() -> (r: BundlerConfigBuilder)
        ensures
            r.config.spec_valid(),
    {
        BundlerConfigBuilder { config: BundlerConfig::default() }
    }

    /// Adds one endpoint with the given weight; everything else stands.
    pub fn with_rpc_endpoint(self, url: String, weight: u32) -> (r: BundlerConfigBuilder)
        ensures
            r.config.rpc.endpoints@.len() == self.config.rpc.endpoints@.len() + 1,
            r.config.rpc.endpoints@.last().url@ == url@,
            r.config.rpc.endpoints@.last().weight == weight,
            forall|i: int|
                0 <= i < self.config.rpc.endpoints@.len() ==> r.config.rpc.endpoints@[i]
                    == self.config.rpc.endpoints@[i],
            r.config.rpc.commitment == self.config.rpc.commitment,
            r.config.rpc.timeout_seconds == self.config.rpc.timeout_seconds,
            r.config.rpc.max_retries == self.config.rpc.max_retries,
            r.config.rpc.pool_size == self.config.rpc.pool_size,
            r.config.rpc.backoff_base_ms == self.config.rpc.backoff_base_ms,
            r.config.rpc.backoff_max_ms == self.config.rpc.backoff_max_ms,
            r.config.fees == self.config.fees,
            r.config.security == self.config.security,
            r.config.signing == self.config.signing,
            r.config.jito == self.config.jito,
            r.config.logging == self.config.logging,
            r.config.service == self.config.service,
            r.config.performance == self.config.performance,
    {
        let mut c = self.config;
        c.rpc.endpoints.push(
            RpcEndpoint { url, weight, supports_jito: false, auth_token: None },
        );
        BundlerConfigBuilder { config: c }
    }

    /// Replaces the relay configuration.
    pub fn with_jito_config(self, jito_config: JitoConfig) -> (r: BundlerConfigBuilder)
        ensures
            (r.config == BundlerConfig { jito: Some(jito_config), ..self.config }),
    {
        let mut c = self.config;
        c.jito = Some(jito_config);
        BundlerConfigBuilder { config: c }
    }

    /// Replaces the program allow-list.
    pub fn with_program_whitelist(self, programs: Vec<Pubkey>) -> (r: BundlerConfigBuilder)
        ensures
            r.config.security.program_whitelist@ == programs@,
            (r.config == BundlerConfig {
                security: SecurityConfig { program_whitelist: programs, ..self.config.security },
                ..self.config
            }),
    {
        let mut c = self.config;
        c.security.program_whitelist = programs;
        BundlerConfigBuilder { config: c }
    }

    /// Replaces the log level.
    pub fn with_log_level(self, level: String) -> (r: BundlerConfigBuilder)
        ensures
            r.config.logging.level@ == level@,
            (r.config == BundlerConfig {
                logging: LoggingConfig { level, ..self.config.logging },
                ..self.config
            }),
    {
        let mut c = self.config;
        c.logging.level = level;
        BundlerConfigBuilder { config: c }
    }

    /// Replaces the service port.
    pub fn with_port(self, port: u16) -> (r: BundlerConfigBuilder)
        ensures
            (r.config == BundlerConfig {
                service: ServiceConfig { port, ..self.config.service },
                ..self.config
            }),
    {
        let mut c = self.config;
        c.service.port = port;
        BundlerConfigBuilder { config: c }
    }

    /// Replaces the worker-thread count.
    pub fn with_worker_threads(self, threads: u32) -> (r: BundlerConfigBuilder)
        ensures
            (r.config == BundlerConfig {
                performance: PerformanceConfig { worker_threads: threads, ..self.config.performance },
                ..self.config
            }),
    {
        let mut c = self.config;
        c.performance.worker_threads = threads;
        BundlerConfigBuilder { config: c }
    }

    /// Hands the configuration out after checking it.
    pub fn build(self) -> (r: BundlerResult<BundlerConfig>)
        ensures
            r is Ok <==> self.config.spec_valid(),
            r matches Ok(c) ==> c == self.config,
            r matches Err(e) ==> e is Config,
    {
        match self.config.validate() {
            Ok(_) => Ok(self.config),
            Err(e) => Err(e),
        }
    }
}

} // verus!
