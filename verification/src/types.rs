use vstd::prelude::*;

verus! {

/// Maximum compute units a single transaction may declare.
pub const MAX_COMPUTE_UNITS: u32 = 1_400_000;

/// Maximum compute-unit price (micro-lamports per unit) ever declared.
pub const MAX_COMPUTE_UNIT_PRICE: u64 = 10_000;

/// A 32-byte account or program address.
///
/// The bundler works on the raw key bytes; the base58 display form is
/// produced and parsed only at the boundary of the crate.
#[derive(Debug, Clone)]
pub struct Pubkey {
    pub bytes: Vec<u8>,
}

impl Pubkey {
    /// A key is well formed when it holds exactly 32 bytes.
    pub open spec fn wf(&self) -> bool {
        self.bytes@.len() == 32
    }

    /// Builds a key from raw bytes; rejects any length other than 32.
    pub fn new(bytes: Vec<u8>) -> (r: Result<Pubkey, crate::errors::BundlerError>)
        ensures
            bytes@.len() == 32 <==> r is Ok,
            r matches Ok(k) ==> k.bytes@ == bytes@ && k.wf(),
    {
        if bytes.len() == 32 {
            Ok(Pubkey { bytes })
        } else {
            Err(crate::errors::BundlerError::InvalidInput("account key must be 32 bytes".to_owned()))
        }
    }

    /// The all-zero key: the system program's address.
    pub fn zeroed() -> (r: Pubkey)
        ensures
            r.wf(),
            forall|i: int| 0 <= i < 32 ==> r.bytes@[i] == 0u8,
    {
        let mut bytes: Vec<u8> = Vec::new();
        let mut i: usize = 0;
        while i < 32
            invariant
                i <= 32,
                bytes@.len() == i,
                forall|j: int| 0 <= j < i ==> bytes@[j] == 0u8,
            decreases 32 - i,
        {
            bytes.push(0u8);
            i = i + 1;
        }
        Pubkey { bytes }
    }
}

impl PartialEq for Pubkey {
    fn eq(&self, other: &Pubkey) -> (r: bool) {
        let r = self.bytes == other.bytes;
        proof {
            if r {
                assert(self.bytes@ =~= other.bytes@);
            }
        }
        r
    }
}

impl vstd::std_specs::cmp::PartialEqSpecImpl for Pubkey {
    open spec fn obeys_eq_spec() -> bool {
        true
    }

    open spec fn eq_spec(&self, other: &Pubkey) -> bool {
        self.bytes@ == other.bytes@
    }
}

/// One account reference inside an instruction.
#[derive(Debug, Clone)]
pub struct AccountMeta {
    pub pubkey: Pubkey,
    pub is_signer: bool,
    pub is_writable: bool,
}

/// A client-supplied instruction: program address, account references, and
/// the instruction payload as base64 text.
#[derive(Debug, Clone)]
pub struct InstructionData {
    pub program_id: Pubkey,
    pub keys: Vec<AccountMeta>,
    pub data_b64: String,
}

/// An instruction with its payload decoded to raw bytes.
#[derive(Debug, Clone)]
pub struct Instruction {
    pub program_id: Pubkey,
    pub accounts: Vec<AccountMeta>,
    pub data: Vec<u8>,
}

/// How the compute-unit limit of a transaction is chosen.
#[derive(Debug, Clone, Copy, PartialEq, Eq, Structural)]
pub enum ComputeLimit {
    Auto,
    Fixed(u32),
}

/// How the compute-unit price of a transaction is chosen.
#[derive(Debug, Clone, Copy, PartialEq, Eq, Structural)]
pub enum ComputePrice {
    Auto,
    Fixed(u64),
}

/// Compute budget policy of a bundle.
#[derive(Debug, Clone, Copy, PartialEq, Eq, Structural)]
pub struct ComputeConfig {
    pub limit: ComputeLimit,
    pub price: ComputePrice,
    pub max_price_lamports: u64,
}

/// Where a signer's key material comes from.
#[derive(Debug, Clone)]
pub enum SignerType {
    File { path: String },
    Env { var_name: String },
    Kms { key_id: String, region: Option<String> },
    Hardware { device_path: String },
}

/// One configured signer, optionally addressable by an alias.
#[derive(Debug, Clone)]
pub struct SignerConfig {
    pub signer_type: SignerType,
    pub alias: Option<String>,
}

impl SignerConfig {
    /// The file path, for a file-backed signer.
    pub fn path(&self) -> (r: Option<String>)
        ensures
            r is Some <==> self.signer_type is File,
            self.signer_type matches SignerType::File { path } ==> (r matches Some(p) && p@ == path@),
    {
        match &self.signer_type {
            SignerType::File { path } => Some(path.clone()),
            _ => None,
        }
    }

    /// The environment variable name, for an environment-backed signer.
    pub fn env_var(&self) -> (r: Option<String>)
        ensures
            r is Some <==> self.signer_type is Env,
            self.signer_type matches SignerType::Env { var_name } ==> (r matches Some(v) && v@ == var_name@),
    {
        match &self.signer_type {
            SignerType::Env { var_name } => Some(var_name.clone()),
            _ => None,
        }
    }

    /// The remote key identifier, for a KMS-backed signer.
    pub fn kms_key_id(&self) -> (r: Option<String>)
        ensures
            r is Some <==> self.signer_type is Kms,
            self.signer_type matches SignerType::Kms { key_id, region } ==> (r matches Some(k) && k@ == key_id@),
    {
        match &self.signer_type {
            SignerType::Kms { key_id, region: _ } => Some(key_id.clone()),
            _ => None,
        }
    }
}

/// Aggregate outcome of a bundle.
#[derive(Debug, Clone, Copy, PartialEq, Eq, Structural)]
pub enum BundleStatus {
    Processing,
    Success,
    Partial,
    Failed,
    Timeout,
    Rejected,
}

/// Outcome of a single transaction.
#[derive(Debug, Clone, Copy, PartialEq, Eq, Structural)]
pub enum TransactionStatus {
    Pending,
    Processed,
    Confirmed,
    Finalized,
    Failed,
}

/// Durability level a transaction has reached on the cluster.
#[derive(Debug, Clone, Copy, PartialEq, Eq, Structural)]
pub enum ConfirmationStatus {
    Unprocessed,
    Processed,
    Confirmed,
    Finalized,
}

impl ConfirmationStatus {
    /// Durability order: unprocessed < processed < confirmed < finalized.
    pub open spec fn spec_rank(self) -> int {
        match self {
            ConfirmationStatus::Unprocessed => 0,
            ConfirmationStatus::Processed => 1,
            ConfirmationStatus::Confirmed => 2,
            ConfirmationStatus::Finalized => 3,
        }
    }

    /// Durability order as a number.
    pub fn rank(self) -> (r: u8)
        ensures
            r as int == self.spec_rank(),
    {
        match self {
            ConfirmationStatus::Unprocessed => 0,
            ConfirmationStatus::Processed => 1,
            ConfirmationStatus::Confirmed => 2,
            ConfirmationStatus::Finalized => 3,
        }
    }
}

/// Result reported for one transaction of a bundle.
#[derive(Debug, Clone)]
pub struct TransactionResult {
    pub signature: Option<String>,
    pub status: TransactionStatus,
    pub error: Option<String>,
    pub compute_units_consumed: Option<u32>,
    pub fee_paid_lamports: Option<u64>,
    pub logs: Vec<String>,
}

/// Timing and volume counters for one bundle.
#[derive(Debug, Clone)]
pub struct BundleMetrics {
    pub total_transactions: u32,
    pub successful_transactions: u32,
    pub failed_transactions: u32,
    pub total_compute_units: u32,
    pub total_fee_paid: u64,
    pub processing_time_ms: u64,
    pub total_latency_ms: u64,
    pub simulation_time_ms: u64,
    pub signing_time_ms: u64,
    pub submission_time_ms: u64,
    pub confirmation_time_ms: u64,
    pub retry_attempts: u32,
    pub rpc_endpoints_used: Vec<String>,
}

/// The bundler's answer to one bundle request.
///
/// `completed_at` is a timestamp in milliseconds, supplied by the caller's
/// clock when the response is assembled.
#[derive(Debug, Clone)]
pub struct BundleResponse {
    pub request_id: String,
    pub status: BundleStatus,
    pub transactions: Vec<TransactionResult>,
    pub bundle_signature: Option<String>,
    pub slot: Option<u64>,
    pub blockhash: Option<String>,
    pub confirmation: ConfirmationStatus,
    pub logs_url: Option<String>,
    pub metrics: BundleMetrics,
    pub completed_at: u64,
}

/// A client's bundle: an ordered instruction list and the policy under which
/// it is to be submitted. `metadata` is free-form key/value pairs.
#[derive(Debug, Clone)]
pub struct BundleRequest {
    pub request_id: String,
    pub atomic: bool,
    pub compute: ComputeConfig,
    pub alt_tables: Vec<Pubkey>,
    pub instructions: Vec<InstructionData>,
    pub signers: Vec<SignerConfig>,
    pub metadata: Vec<(String, String)>,
}

/// Fee policy: how a compute-unit price is derived and bounded.
#[derive(Debug, Clone)]
pub struct FeeStrategy {
    pub base_fee_lamports: u64,
    pub priority_fee_lamports: u64,
    pub compute_unit_price_micro_lamports: u64,
    pub max_price_lamports: u64,
    pub base_percentile: u8,
    pub buffer_percent: u8,
    pub adaptive: bool,
    pub enable_bump: bool,
    pub max_bump_attempts: u32,
}

impl Default for FeeStrategy {
    /// The stock fee policy: 75th percentile base, 20% buffer, adaptive
    /// pricing and bumping enabled, three bump attempts, 100k ceiling.
    fn default() -> (r: FeeStrategy)
        ensures
            r.base_fee_lamports == 5000,
            r.priority_fee_lamports == 1000,
            r.compute_unit_price_micro_lamports == 1000,
            r.max_price_lamports == 100000,
            r.base_percentile == 75,
            r.buffer_percent == 20,
            r.adaptive,
            r.enable_bump,
            r.max_bump_attempts == 3,
    {
        FeeStrategy {
            base_fee_lamports: 5000,
            priority_fee_lamports: 1000,
            compute_unit_price_micro_lamports: 1000,
            max_price_lamports: 100000,
            base_percentile: 75,
            buffer_percent: 20,
            adaptive: true,
            enable_bump: true,
            max_bump_attempts: 3,
        }
    }
}

/// One upstream RPC endpoint as configured.
#[derive(Debug, Clone)]
pub struct RpcEndpoint {
    pub url: String,
    pub weight: u32,
    pub supports_jito: bool,
    pub auth_token: Option<String>,
}

/// Optional block-engine relay configuration.
#[derive(Debug, Clone)]
pub struct JitoConfig {
    pub block_engine_url: String,
    pub relayer_url: String,
    pub auth_keypair_path: Option<String>,
    pub tip_lamports: u64,
    pub max_tip_lamports: u64,
    pub enabled: bool,
}

/// Health of one component, with an optional message and the time of the
/// last success in milliseconds.
#[derive(Debug, Clone)]
pub struct ComponentHealth {
    pub healthy: bool,
    pub message: Option<String>,
    pub last_success: Option<u64>,
}

/// Health of the whole service, by component name.
#[derive(Debug, Clone)]
pub struct HealthStatus {
    pub healthy: bool,
    pub components: Vec<(String, ComponentHealth)>,
    pub timestamp: u64,
}

} // verus!

verus! {

/// Query parameters of the status endpoint.
#[derive(Debug, Clone)]
pub struct StatusQuery {
    pub verbose: Option<bool>,
}

/// The status endpoint's answer for one signature.
#[derive(Debug, Clone)]
pub struct TransactionStatusResponse {
    pub signature: String,
    pub status: String,
    pub slot: Option<u64>,
    pub fee: Option<u64>,
    pub compute_units: Option<u64>,
    pub logs: Option<Vec<String>>,
    pub error: Option<String>,
}

/// The error shape the service returns to callers.
#[derive(Debug, Clone)]
pub struct ErrorResponse {
    pub error: String,
    pub details: Option<String>,
}

} // verus!
