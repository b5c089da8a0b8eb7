use vstd::prelude::*;
use vstd::string::StringSliceAdditionalSpecFns;
use crate::config::SecurityConfig;
use crate::errors::BundlerError;
use crate::errors::BundlerResult;
use crate::types::AccountMeta;
use crate::types::Instruction;
use crate::types::Pubkey;

verus! {

/// The floor and ceiling of a compute-unit estimate.
pub const MIN_COMPUTE_ESTIMATE: u32 = 1_000;

/// The cluster's compute-unit ceiling per transaction.
pub const MAX_COMPUTE_ESTIMATE: u32 = 1_400_000;

/// What a failed simulation reported, and whether retrying makes sense.
#[derive(Debug, Clone)]
pub struct SimulationError {
    pub message: String,
    pub retryable: bool,
}

/// The outcome of simulating one transaction.
#[derive(Debug, Clone)]
pub struct SimulationResult {
    pub success: bool,
    pub compute_units_consumed: Option<u32>,
    pub logs: Vec<String>,
    pub error: Option<SimulationError>,
    pub accounts_modified: Vec<Pubkey>,
    pub estimated_fee: Option<u64>,
    pub return_data: Option<String>,
}

/// Why a bundle fails validation, if it does.
pub ghost enum ValidationVerdict {
    Accept,
    TooLarge,
    NotWhitelisted(int),
    TooManyWritable(int),
}

/// How many of the instruction's account references are writable.
pub open spec fn spec_writable_count(accounts: Seq<AccountMeta>) -> int
    decreases accounts.len(),
{
    if accounts.len() == 0 {
        0
    } else {
        spec_writable_count(accounts.drop_last()) + if accounts.last().is_writable {
            1int
        } else {
            0int
        }
    }
}

/// The first instruction whose program is outside the allow-list, if any.
pub open spec fn spec_first_not_whitelisted(cfg: SecurityConfig, instrs: Seq<Instruction>, i: int) -> Option<int>
    decreases instrs.len() - i,
{
    if i < 0 || i >= instrs.len() {
        None
    } else if !cfg.spec_is_program_whitelisted(&instrs[i].program_id) {
        Some(i)
    } else {
        spec_first_not_whitelisted(cfg, instrs, i + 1)
    }
}

/// The first instruction with too many writable accounts, if any.
pub open spec fn spec_first_too_writable(cfg: SecurityConfig, instrs: Seq<Instruction>, i: int) -> Option<int>
    decreases instrs.len() - i,
{
    if i < 0 || i >= instrs.len() {
        None
    } else if spec_writable_count(instrs[i].accounts@) > cfg.max_writable_accounts as int {
        Some(i)
    } else {
        spec_first_too_writable(cfg, instrs, i + 1)
    }
}

/// The policy verdict on a bundle, checked in order: size, then the
/// allow-list, then the per-instruction writable-account ceiling. With
/// validation off everything is accepted; an empty allow-list allows every
/// program.
pub open spec fn spec_validate(cfg: SecurityConfig, instrs: Seq<Instruction>) -> ValidationVerdict {
    if !cfg.validate_instructions {
        ValidationVerdict::Accept
    } else if instrs.len() > cfg.max_bundle_size as int {
        ValidationVerdict::TooLarge
    } else {
        let nw = if cfg.program_whitelist@.len() > 0 {
            spec_first_not_whitelisted(cfg, instrs, 0)
        } else {
            None
        };
        match nw {
            Some(i) => ValidationVerdict::NotWhitelisted(i),
            None => match spec_first_too_writable(cfg, instrs, 0) {
                Some(i) => ValidationVerdict::TooManyWritable(i),
                None => ValidationVerdict::Accept,
            },
        }
    }
}

/// Validation is a pure function of the instruction list and the policy:
/// the same inputs always give the same verdict.
pub proof fn lemma_validate_deterministic(
    cfg1: SecurityConfig,
    instrs1: Seq<Instruction>,
    cfg2: SecurityConfig,
    instrs2: Seq<Instruction>,
)
    requires
        cfg1 == cfg2,
        instrs1 == instrs2,
    ensures
        spec_validate(cfg1, instrs1) == spec_validate(cfg2, instrs2),
{
}

/// With an empty allow-list, validation never rejects an instruction for
/// its program.
pub proof fn lemma_empty_whitelist_never_rejects_program(
    cfg: SecurityConfig,
    instrs: Seq<Instruction>,
)
    requires
        cfg.program_whitelist@.len() == 0,
    ensures
        !(spec_validate(cfg, instrs) is NotWhitelisted),
{
}

/// Pre-flight validation and prediction under a security policy.
#[derive(Debug, Clone)]
pub struct TransactionSimulator {
    pub security_config: SecurityConfig,
}

impl TransactionSimulator {
    /// A simulator enforcing the given policy.
    pub fn new(security_config: SecurityConfig) -> (r: TransactionSimulator)
        ensures
            r.security_config == security_config,
    {
        TransactionSimulator { security_config }
    }

    /// Checks a bundle against the policy, in order: bundle size, program
    /// allow-list, per-instruction writable-account ceiling. The first
    /// violation comes back as a `Simulation` error; a rejected program's
    /// message says it is not whitelisted.
    pub fn validate_instructions(&self, instructions: &Vec<Instruction>) -> (r: BundlerResult<()>)
        ensures
            r is Ok <==> spec_validate(self.security_config, instructions@) is Accept,
            r matches Err(e) ==> e is Simulation,
            spec_validate(self.security_config, instructions@) is TooLarge ==> (r matches Err(e)
                && e.spec_message() == "bundle has too many instructions"@),
            spec_validate(self.security_config, instructions@) is NotWhitelisted ==> (
            r matches Err(e) && e.spec_message() == "instruction program is not whitelisted"@),
            spec_validate(self.security_config, instructions@) is TooManyWritable ==> (
            r matches Err(e) && e.spec_message()
                == "instruction has too many writable accounts"@),
    {
        if !self.security_config.validate_instructions {
            return Ok(());
        }
        let n = instructions.len();
        if n as u64 > self.security_config.max_bundle_size as u64 {
            return Err(BundlerError::Simulation("bundle has too many instructions".to_owned()));
        }
        if self.security_config.program_whitelist.len() > 0 {
            let mut i: usize = 0;
            while i < n
                invariant
                    n == instructions@.len(),
                    i <= n,
                    self.security_config.validate_instructions,
                    instructions@.len() <= self.security_config.max_bundle_size as int,
                    self.security_config.program_whitelist@.len() > 0,
                    spec_first_not_whitelisted(self.security_config, instructions@, i as int)
                        == spec_first_not_whitelisted(self.security_config, instructions@, 0),
                decreases n - i,
            {
                if !self.security_config.is_program_whitelisted(&instructions[i].program_id) {
                    return Err(
                        BundlerError::Simulation("instruction program is not whitelisted".to_owned()),
                    );
                }
                i = i + 1;
            }
        }
        let mut i: usize = 0;
        while i < n
            invariant
                n == instructions@.len(),
                i <= n,
                self.security_config.validate_instructions,
                instructions@.len() <= self.security_config.max_bundle_size as int,
                self.security_config.program_whitelist@.len() == 0 || spec_first_not_whitelisted(
                    self.security_config,
                    instructions@,
                    0,
                ) is None,
                spec_first_too_writable(self.security_config, instructions@, i as int)
                    == spec_first_too_writable(self.security_config, instructions@, 0),
            decreases n - i,
        {
            let accounts = &instructions[i].accounts;
            let m = accounts.len();
            let mut count: usize = 0;
            let mut j: usize = 0;
            while j < m
                invariant
                    m == accounts@.len(),
                    j <= m,
                    count <= j,
                    count == spec_writable_count(accounts@.subrange(0, j as int)),
                decreases m - j,
            {
                proof {
                    assert(accounts@.subrange(0, j as int + 1).drop_last() =~= accounts@.subrange(
                        0,
                        j as int,
                    ));
                }
                if accounts[j].is_writable {
                    count = count + 1;
                }
                j = j + 1;
            }
            proof {
                assert(accounts@.subrange(0, m as int) =~= accounts@);
            }
            if count as u64 > self.security_config.max_writable_accounts as u64 {
                return Err(
                    BundlerError::Simulation(
                        "instruction has too many writable accounts".to_owned(),
                    ),
                );
            }
            i = i + 1;
        }
        Ok(())
    }

    /// The compute-unit estimate for a transaction: the simulated
    /// consumption plus a fifth (rounding up) when one is known, else a
    /// base cost plus a fixed cost per instruction; always within the
    /// estimate floor and the cluster's ceiling.
    pub fn estimate_compute_units(&self, consumed: Option<u32>, num_instructions: usize) -> (r: u32)
        ensures
            r == spec_estimate_compute_units(consumed, num_instructions as int),
            MIN_COMPUTE_ESTIMATE <= r <= MAX_COMPUTE_ESTIMATE,
    {
        match consumed {
            Some(c) => {
                let buffered: u64 = ((c as u64) * 6 + 4) / 5;
                if buffered < MIN_COMPUTE_ESTIMATE as u64 {
                    MIN_COMPUTE_ESTIMATE
                } else if buffered > MAX_COMPUTE_ESTIMATE as u64 {
                    MAX_COMPUTE_ESTIMATE
                } else {
                    buffered as u32
                }
            },
            None => {
                if num_instructions >= 140 {
                    MAX_COMPUTE_ESTIMATE
                } else {
                    1_000 + 10_000 * (num_instructions as u32)
                }
            },
        }
    }

    /// The success score of a simulation outcome, in thousandths.
    ///
    /// A successful simulation starts at 900 and is scaled down for heavy
    /// compute use, up for light use, down for touching many accounts, and
    /// down for each warning in the logs, capped at 1000. A failed
    /// simulation scores 300 when retryable, 0 when not, and 100 when it
    /// carries no error at all.
    pub fn predict_success(&self, sim: &SimulationResult) -> (r: u64)
        ensures
            r as int == spec_predict_success(*sim),
            r <= 1000,
    {
        if !sim.success {
            return match &sim.error {
                Some(e) => if e.retryable {
                    300
                } else {
                    0
                },
                None => 100,
            };
        }
        let mut p: u64 = 900;
        match sim.compute_units_consumed {
            Some(c) => {
                if c > 1_000_000 {
                    p = p * 800 / 1000;
                } else if c < 10_000 {
                    p = p * 1100 / 1000;
                }
            },
            None => {},
        }
        if sim.accounts_modified.len() > 10 {
            p = p * 900 / 1000;
        }
        let n = sim.logs.len();
        let mut i: usize = 0;
        proof {
            assert(p <= 990);
        }
        while i < n
            invariant
                n == sim.logs@.len(),
                i <= n,
                p <= 990,
                spec_apply_warnings(p as int, sim.logs@, i as int) == spec_apply_warnings(
                    spec_pre_warning_score(*sim),
                    sim.logs@,
                    0,
                ),
            decreases n - i,
        {
            if contains_warning(sim.logs[i].as_str()) {
                p = p * 950 / 1000;
            }
            i = i + 1;
        }
        if p > 1000 {
            1000
        } else {
            p
        }
    }

    /// The simulator is usable when its policy is coherent: a zero bundle
    /// ceiling is a configuration fault.
    pub fn health_check(&self) -> (r: BundlerResult<()>)
        ensures
            r is Ok <==> self.security_config.max_bundle_size > 0,
            r matches Err(e) ==> e is Simulation,
    {
        if self.security_config.max_bundle_size == 0 {
            return Err(BundlerError::Simulation("max_bundle_size cannot be zero".to_owned()));
        }
        Ok(())
    }
}

/// Mirror of `estimate_compute_units`.
pub open spec fn spec_estimate_compute_units(consumed: Option<u32>, n: int) -> u32 {
    match consumed {
        Some(c) => {
            let buffered = ((c as int) * 6 + 4) / 5;
            if buffered < MIN_COMPUTE_ESTIMATE as int {
                MIN_COMPUTE_ESTIMATE
            } else if buffered > MAX_COMPUTE_ESTIMATE as int {
                MAX_COMPUTE_ESTIMATE
            } else {
                buffered as u32
            }
        },
        None => {
            if n >= 140 {
                MAX_COMPUTE_ESTIMATE
            } else {
                (1_000 + 10_000 * n) as u32
            }
        },
    }
}

/// The score of a successful simulation before the log scan.
pub open spec fn spec_pre_warning_score(sim: SimulationResult) -> int {
    let p0 = 900int;
    let p1 = match sim.compute_units_consumed {
        Some(c) => if c > 1_000_000 {
            p0 * 800 / 1000
        } else if c < 10_000 {
            p0 * 1100 / 1000
        } else {
            p0
        },
        None => p0,
    };
    if sim.accounts_modified@.len() > 10 {
        p1 * 900 / 1000
    } else {
        p1
    }
}

/// Scales the score down once for each remaining log line that carries a
/// warning.
pub open spec fn spec_apply_warnings(p: int, logs: Seq<String>, i: int) -> int
    decreases logs.len() - i,
{
    if i < 0 || i >= logs.len() {
        p
    } else {
        spec_apply_warnings(
            if spec_log_has_warning(logs[i]@) {
                p * 950 / 1000
            } else {
                p
            },
            logs,
            i + 1,
        )
    }
}

/// Mirror of `predict_success`.
pub open spec fn spec_predict_success(sim: SimulationResult) -> int {
    if !sim.success {
        match sim.error {
            Some(e) => if e.retryable {
                300int
            } else {
                0int
            },
            None => 100int,
        }
    } else {
        let p = spec_apply_warnings(spec_pre_warning_score(sim), sim.logs@, 0);
        if p > 1000 {
            1000
        } else {
            p
        }
    }
}

/// A byte folded to ASCII lower case.
pub open spec fn spec_lower_byte(c: u8) -> u8 {
    if 65 <= c <= 90 {
        (c + 32) as u8
    } else {
        c
    }
}

/// The bytes of the word the log scan looks for.
pub open spec fn spec_warning_bytes() -> Seq<u8> {
    seq![119u8, 97u8, 114u8, 110u8, 105u8, 110u8, 103u8]
}

/// Whether the window of seven bytes at `k` spells "warning", ASCII
/// case-insensitively.
pub open spec fn spec_warning_at(b: Seq<u8>, k: int) -> bool {
    0 <= k && k + 7 <= b.len() && forall|t: int|
        0 <= t < 7 ==> spec_lower_byte(#[trigger] b[k + t]) == spec_warning_bytes()[t]
}

/// Whether the byte sequence contains "warning", ASCII case-insensitively.
pub open spec fn spec_bytes_have_warning(b: Seq<u8>) -> bool {
    exists|k: int| #[trigger] spec_warning_at(b, k)
}

/// Whether the text contains "warning", ASCII case-insensitively, judged on
/// its UTF-8 bytes.
pub open spec fn spec_log_has_warning(s: Seq<char>) -> bool {
    spec_bytes_have_warning(vstd::utf8::encode_utf8(s))
}

/// A byte folded to ASCII lower case.
fn lower_byte(c: u8) -> (r: u8)
    ensures
        r == spec_lower_byte(c),
{
    if 65 <= c && c <= 90 {
        c + 32
    } else {
        c
    }
}

/// Scans the text for "warning", ASCII case-insensitively.
pub fn contains_warning(s: &str) -> (r: bool)
    ensures
        r == spec_log_has_warning(s@),
{
    let b: &[u8] = s.as_bytes();
    let n = b.len();
    proof {
        assert(b@ == s.spec_bytes());
    }
    if n < 7 {
        proof {
            assert forall|k: int| !spec_warning_at(b@, k) by {}
        }
        return false;
    }
    let mut k: usize = 0;
    while k <= n - 7
        invariant
            n == b@.len(),
            n >= 7,
            k <= n - 6,
            b@ == vstd::utf8::encode_utf8(s@),
            forall|q: int| 0 <= q < k ==> !spec_warning_at(b@, q),
        decreases n - k,
    {
        let mut t: usize = 0;
        let mut window_ok: bool = true;
        while t < 7
            invariant
                n == b@.len(),
                k + 7 <= n,
                t <= 7,
                window_ok == (forall|u: int|
                    0 <= u < t ==> spec_lower_byte(#[trigger] b@[k + u])
                        == spec_warning_bytes()[u]),
            decreases 7 - t,
        {
            let want: u8 = if t == 0 {
                119
            } else if t == 1 {
                97
            } else if t == 2 {
                114
            } else if t == 3 {
                110
            } else if t == 4 {
                105
            } else if t == 5 {
                110
            } else {
                103
            };
            proof {
                assert(spec_warning_bytes()[t as int] == want);
            }
            let ok_here = lower_byte(b[k + t]) == want;
            window_ok = window_ok && ok_here;
            t = t + 1;
        }
        if window_ok {
            proof {
                assert(spec_warning_at(b@, k as int));
            }
            return true;
        }
        k = k + 1;
    }
    proof {
        assert forall|q: int| !spec_warning_at(b@, q) by {
            if 0 <= q && q + 7 <= b@.len() {
                assert(q < k);
            }
        }
    }
    false
}

} // verus!
