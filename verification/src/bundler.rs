use vstd::prelude::*;
use vstd::string::StringExecFns;
use crate::codec::b64_decode_of;
use crate::codec::instruction_from_data;
use crate::codec::spec_meta_eq;
use crate::errors::BundlerError;
use crate::errors::BundlerResult;
use crate::fees::FeeManager;
use crate::fees::spec_bump_value;
use crate::fees::spec_price;
use crate::fees::history_fees;
use crate::config::SecurityConfig;
use crate::simulator::spec_first_not_whitelisted;
use crate::simulator::spec_first_too_writable;
use crate::simulator::spec_validate;
use crate::simulator::spec_writable_count;
use crate::simulator::SimulationResult;
use crate::simulator::TransactionSimulator;
use crate::simulator::ValidationVerdict;
use crate::types::AccountMeta;
use crate::transaction::budget_data_limit;
use crate::transaction::budget_data_price;
use crate::transaction::compile_message;
use crate::transaction::compute_budget_program;
use crate::transaction::new_unsigned_transaction;
use crate::transaction::set_blockhash;
use crate::transaction::spec_compute_budget_id;
use crate::transaction::spec_is_price_ix;
use crate::transaction::spec_key_referenced;
use crate::transaction::spec_referenced_keys;
use crate::transaction::update_transaction_fee;
use crate::transaction::Transaction;
use crate::types::BundleMetrics;
use crate::types::BundleRequest;
use crate::types::BundleResponse;
use crate::types::BundleStatus;
use crate::types::ComputeConfig;
use crate::types::ComputeLimit;
use crate::types::ComputePrice;
use crate::types::ConfirmationStatus;
use crate::types::Instruction;
use crate::types::InstructionData;
use crate::types::Pubkey;
use crate::types::TransactionResult;
use crate::types::TransactionStatus;

verus! {

/// The submit loop gives up after this many attempts per transaction.
pub const MAX_SUBMIT_ATTEMPTS: u32 = 3;

/// Confirmation polling gives up after this long, in milliseconds.
pub const CONFIRM_TIMEOUT_MS: u64 = 60_000;

/// The pause between confirmation polls, in milliseconds.
pub const CONFIRM_POLL_INTERVAL_MS: u64 = 500;

/// Decodes every client instruction; the first undecodable payload rejects
/// the bundle with an `InvalidInput` error.
pub fn convert_instructions(data: &Vec<InstructionData>) -> (r: BundlerResult<Vec<Instruction>>)
    ensures
        r is Ok <==> (forall|i: int|
            0 <= i < data@.len() ==> b64_decode_of((#[trigger] data@[i]).data_b64@) is Some),
        r matches Ok(out) ==> {
            &&& out@.len() == data@.len()
            &&& forall|i: int|
                0 <= i < data@.len() ==> {
                    let ix = #[trigger] out@[i];
                    &&& b64_decode_of(data@[i].data_b64@) == Some(ix.data@)
                    &&& ix.program_id.bytes@ == data@[i].program_id.bytes@
                    &&& ix.accounts@.len() == data@[i].keys@.len()
                    &&& forall|j: int|
                        0 <= j < data@[i].keys@.len() ==> spec_meta_eq(
                            #[trigger] ix.accounts@[j],
                            data@[i].keys@[j],
                        )
                }
        },
        r matches Err(e) ==> e is InvalidInput,
{
    let n = data.len();
    let mut out: Vec<Instruction> = Vec::new();
    let mut i: usize = 0;
    while i < n
        invariant
            n == data@.len(),
            i <= n,
            out@.len() == i,
            forall|k: int|
                0 <= k < i ==> b64_decode_of((#[trigger] data@[k]).data_b64@) is Some,
            forall|k: int|
                0 <= k < i ==> {
                    let ix = #[trigger] out@[k];
                    &&& b64_decode_of(data@[k].data_b64@) == Some(ix.data@)
                    &&& ix.program_id.bytes@ == data@[k].program_id.bytes@
                    &&& ix.accounts@.len() == data@[k].keys@.len()
                    &&& forall|j: int|
                        0 <= j < data@[k].keys@.len() ==> spec_meta_eq(
                            #[trigger] ix.accounts@[j],
                            data@[k].keys@[j],
                        )
                },
        decreases n - i,
    {
        match instruction_from_data(&data[i]) {
            Ok(ix) => {
                out.push(ix);
            },
            Err(e) => {
                return Err(e);
            },
        }
        i = i + 1;
    }
    Ok(out)
}

/// The durability a transaction outcome witnesses: a failed or processed
/// transaction counts as processed, a pending one as nothing.
pub open spec fn spec_confirmation_of(status: TransactionStatus) -> ConfirmationStatus {
    match status {
        TransactionStatus::Finalized => ConfirmationStatus::Finalized,
        TransactionStatus::Confirmed => ConfirmationStatus::Confirmed,
        TransactionStatus::Processed => ConfirmationStatus::Processed,
        TransactionStatus::Failed => ConfirmationStatus::Processed,
        TransactionStatus::Pending => ConfirmationStatus::Unprocessed,
    }
}

/// The durability a transaction outcome witnesses.
pub fn confirmation_from_transaction_status(status: TransactionStatus) -> (r: ConfirmationStatus)
    ensures
        r == spec_confirmation_of(status),
{
    match status {
        TransactionStatus::Finalized => ConfirmationStatus::Finalized,
        TransactionStatus::Confirmed => ConfirmationStatus::Confirmed,
        TransactionStatus::Processed => ConfirmationStatus::Processed,
        TransactionStatus::Failed => ConfirmationStatus::Processed,
        TransactionStatus::Pending => ConfirmationStatus::Unprocessed,
    }
}

/// The stronger of two durability levels.
pub open spec fn spec_combine_confirmation(a: ConfirmationStatus, b: ConfirmationStatus) -> ConfirmationStatus {
    if a.spec_rank() >= b.spec_rank() {
        a
    } else {
        b
    }
}

/// The stronger of two durability levels.
pub fn combine_confirmation_status(a: ConfirmationStatus, b: ConfirmationStatus) -> (r:
    ConfirmationStatus)
    ensures
        r == spec_combine_confirmation(a, b),
{
    if a.rank() >= b.rank() {
        a
    } else {
        b
    }
}

/// The strongest durability any of the results witnesses.
pub open spec fn spec_aggregate_confirmation(results: Seq<TransactionResult>) -> ConfirmationStatus
    decreases results.len(),
{
    if results.len() == 0 {
        ConfirmationStatus::Unprocessed
    } else {
        spec_combine_confirmation(
            spec_aggregate_confirmation(results.drop_last()),
            spec_confirmation_of(results.last().status),
        )
    }
}

/// The strongest durability any of the results witnesses.
pub fn aggregate_confirmation(results: &Vec<TransactionResult>) -> (r: ConfirmationStatus)
    ensures
        r == spec_aggregate_confirmation(results@),
{
    let n = results.len();
    let mut acc = ConfirmationStatus::Unprocessed;
    let mut i: usize = 0;
    while i < n
        invariant
            n == results@.len(),
            i <= n,
            acc == spec_aggregate_confirmation(results@.subrange(0, i as int)),
        decreases n - i,
    {
        proof {
            assert(results@.subrange(0, i as int + 1).drop_last() =~= results@.subrange(
                0,
                i as int,
            ));
        }
        acc = combine_confirmation_status(acc, confirmation_from_transaction_status(results[i].status));
        i = i + 1;
    }
    proof {
        assert(results@.subrange(0, n as int) =~= results@);
    }
    acc
}

/// Whether a result counts as successful: anything that did not fail.
pub open spec fn spec_result_ok(r: TransactionResult) -> bool {
    !(r.status is Failed)
}

/// The index of the first successful result carrying a signature, if any.
pub open spec fn spec_first_signature(results: Seq<TransactionResult>, i: int) -> Option<int>
    decreases results.len() - i,
{
    if i < 0 || i >= results.len() {
        None
    } else if spec_result_ok(results[i]) && results[i].signature is Some {
        Some(i)
    } else {
        spec_first_signature(results, i + 1)
    }
}

/// The first successful result's signature, if any.
pub fn bundle_signature_of(results: &Vec<TransactionResult>) -> (r: Option<String>)
    ensures
        r is Some <==> spec_first_signature(results@, 0) is Some,
        r matches Some(s) ==> (match spec_first_signature(results@, 0) {
            Some(i) => results@[i].signature matches Some(orig) && s@ == orig@,
            None => false,
        }),
{
    let n = results.len();
    let mut i: usize = 0;
    while i < n
        invariant
            n == results@.len(),
            i <= n,
            spec_first_signature(results@, i as int) == spec_first_signature(results@, 0),
        decreases n - i,
    {
        if !matches!(results[i].status, TransactionStatus::Failed) {
            match &results[i].signature {
                Some(s) => {
                    return Some(s.clone());
                },
                None => {},
            }
        }
        i = i + 1;
    }
    None
}

/// How many of the results count as successful.
pub open spec fn spec_success_count(results: Seq<TransactionResult>) -> int
    decreases results.len(),
{
    if results.len() == 0 {
        0
    } else {
        spec_success_count(results.drop_last()) + if spec_result_ok(results.last()) {
            1int
        } else {
            0int
        }
    }
}

/// The aggregate status: failed as soon as any transaction failed, else
/// success.
pub open spec fn spec_aggregate_status(results: Seq<TransactionResult>) -> BundleStatus {
    if spec_success_count(results) == results.len() {
        BundleStatus::Success
    } else {
        BundleStatus::Failed
    }
}

/// Sums with saturation at the top of u64.
pub open spec fn spec_sat_add_u64(a: u64, b: u64) -> u64 {
    if a + b > u64::MAX {
        u64::MAX
    } else {
        (a + b) as u64
    }
}

/// Total compute units consumed across the results, saturating.
pub open spec fn spec_total_cu(results: Seq<TransactionResult>) -> u32
    decreases results.len(),
{
    if results.len() == 0 {
        0
    } else {
        let rest = spec_total_cu(results.drop_last());
        let add = match results.last().compute_units_consumed {
            Some(c) => c,
            None => 0u32,
        };
        if rest + add > u32::MAX {
            u32::MAX
        } else {
            (rest + add) as u32
        }
    }
}

/// Total fee paid across the results, saturating.
pub open spec fn spec_total_fee(results: Seq<TransactionResult>) -> u64
    decreases results.len(),
{
    if results.len() == 0 {
        0
    } else {
        let rest = spec_total_fee(results.drop_last());
        let add = match results.last().fee_paid_lamports {
            Some(f) => f,
            None => 0u64,
        };
        spec_sat_add_u64(rest, add)
    }
}

/// Time spent per stage of the pipeline, in milliseconds.
#[derive(Debug, Clone)]
pub struct StageTimers {
    pub simulation_ms: u64,
    pub signing_ms: u64,
    pub submission_ms: u64,
    pub confirmation_ms: u64,
}

impl StageTimers {
    /// All four counters at zero.
    pub fn zero() -> (r: StageTimers)
        ensures
            r.simulation_ms == 0 && r.signing_ms == 0 && r.submission_ms == 0
                && r.confirmation_ms == 0,
    {
        StageTimers { simulation_ms: 0, signing_ms: 0, submission_ms: 0, confirmation_ms: 0 }
    }
}

/// Saturating add on u64.
pub fn sat_add_u64(a: u64, b: u64) -> (r: u64)
    ensures
        r == spec_sat_add_u64(a, b),
{
    match a.checked_add(b) {
        Some(v) => v,
        None => u64::MAX,
    }
}

/// Assembles the metrics block of a response from the per-transaction
/// results, the stage timers, and the retry count.
pub fn build_metrics(
    results: &Vec<TransactionResult>,
    timers: &StageTimers,
    total_latency_ms: u64,
    retry_attempts: u32,
    rpc_endpoints_used: Vec<String>,
) -> (r: BundleMetrics)
    requires
        results@.len() <= u32::MAX,
    ensures
        r.total_transactions == results@.len(),
        r.successful_transactions == spec_success_count(results@),
        r.failed_transactions == results@.len() - spec_success_count(results@),
        r.total_compute_units == spec_total_cu(results@),
        r.total_fee_paid == spec_total_fee(results@),
        r.processing_time_ms == spec_sat_add_u64(
            spec_sat_add_u64(
                spec_sat_add_u64(timers.simulation_ms, timers.signing_ms),
                timers.submission_ms,
            ),
            timers.confirmation_ms,
        ),
        r.total_latency_ms == total_latency_ms,
        r.simulation_time_ms == timers.simulation_ms,
        r.signing_time_ms == timers.signing_ms,
        r.submission_time_ms == timers.submission_ms,
        r.confirmation_time_ms == timers.confirmation_ms,
        r.retry_attempts == retry_attempts,
        r.rpc_endpoints_used@ == rpc_endpoints_used@,
{
    let n = results.len();
    let mut successful: u32 = 0;
    let mut total_cu: u32 = 0;
    let mut total_fee: u64 = 0;
    let mut i: usize = 0;
    while i < n
        invariant
            n == results@.len(),
            n <= u32::MAX,
            i <= n,
            successful == spec_success_count(results@.subrange(0, i as int)),
            successful <= i,
            total_cu == spec_total_cu(results@.subrange(0, i as int)),
            total_fee == spec_total_fee(results@.subrange(0, i as int)),
        decreases n - i,
    {
        proof {
            assert(results@.subrange(0, i as int + 1).drop_last() =~= results@.subrange(
                0,
                i as int,
            ));
        }
        if !matches!(results[i].status, TransactionStatus::Failed) {
            successful = successful + 1;
        }
        let cu = match results[i].compute_units_consumed {
            Some(c) => c,
            None => 0,
        };
        total_cu = if total_cu as u64 + cu as u64 > u32::MAX as u64 {
            u32::MAX
        } else {
            total_cu + cu
        };
        let fee = match results[i].fee_paid_lamports {
            Some(f) => f,
            None => 0,
        };
        total_fee = sat_add_u64(total_fee, fee);
        i = i + 1;
    }
    proof {
        assert(results@.subrange(0, n as int) =~= results@);
    }
    let processing = sat_add_u64(
        sat_add_u64(sat_add_u64(timers.simulation_ms, timers.signing_ms), timers.submission_ms),
        timers.confirmation_ms,
    );
    BundleMetrics {
        total_transactions: n as u32,
        successful_transactions: successful,
        failed_transactions: (n as u32) - successful,
        total_compute_units: total_cu,
        total_fee_paid: total_fee,
        processing_time_ms: processing,
        total_latency_ms,
        simulation_time_ms: timers.simulation_ms,
        signing_time_ms: timers.signing_ms,
        submission_time_ms: timers.submission_ms,
        confirmation_time_ms: timers.confirmation_ms,
        retry_attempts,
        rpc_endpoints_used,
    }
}

/// Total account references across the bundle, saturating.
pub open spec fn spec_total_accounts(instrs: Seq<Instruction>) -> u64
    decreases instrs.len(),
{
    if instrs.len() == 0 {
        0
    } else {
        spec_sat_add_u64(
            spec_total_accounts(instrs.drop_last()),
            instrs.last().accounts@.len() as u64,
        )
    }
}

/// Total payload bytes across the bundle, saturating.
pub open spec fn spec_total_data(instrs: Seq<Instruction>) -> u64
    decreases instrs.len(),
{
    if instrs.len() == 0 {
        0
    } else {
        spec_sat_add_u64(spec_total_data(instrs.drop_last()), instrs.last().data@.len() as u64)
    }
}

/// How many instructions may share one transaction: one when the bundle
/// references many accounts or carries much data, else the bundle's size
/// capped at five.
pub open spec fn spec_estimate_batch_size(instrs: Seq<Instruction>) -> int {
    if spec_total_accounts(instrs) > 20 || spec_total_data(instrs) > 800 {
        if instrs.len() == 0 {
            0
        } else {
            1
        }
    } else {
        if instrs.len() < 5 {
            instrs.len() as int
        } else {
            5
        }
    }
}

/// A conservative cap on how many instructions may share one transaction:
/// one when the bundle references many accounts or carries much data, else
/// at most five.
pub fn estimate_batch_size(instructions: &Vec<Instruction>) -> (r: usize)
    ensures
        r as int == spec_estimate_batch_size(instructions@),
        r <= 5,
        instructions@.len() > 0 ==> r >= 1,
{
    let n = instructions.len();
    let mut total_accounts: u64 = 0;
    let mut total_data: u64 = 0;
    let mut i: usize = 0;
    while i < n
        invariant
            n == instructions@.len(),
            i <= n,
            total_accounts == spec_total_accounts(instructions@.subrange(0, i as int)),
            total_data == spec_total_data(instructions@.subrange(0, i as int)),
        decreases n - i,
    {
        proof {
            assert(instructions@.subrange(0, i as int + 1).drop_last() =~= instructions@.subrange(
                0,
                i as int,
            ));
        }
        total_accounts = sat_add_u64(total_accounts, instructions[i].accounts.len() as u64);
        total_data = sat_add_u64(total_data, instructions[i].data.len() as u64);
        i = i + 1;
    }
    proof {
        assert(instructions@.subrange(0, n as int) =~= instructions@);
    }
    if total_accounts > 20 || total_data > 800 {
        if n == 0 {
            0
        } else {
            1
        }
    } else {
        if n < 5 {
            n
        } else {
            5
        }
    }
}

/// The per-component health report the service exposes: each component
/// name beside "healthy" or "unhealthy".
pub fn health_components(rpc_ok: bool, signing_ok: bool, simulator_ok: bool) -> (r: Vec<
    (String, String),
>)
    ensures
        r@.len() == 4,
        r@[0].0@ == "rpc_client"@ && r@[0].1@ == (if rpc_ok {
            "healthy"@
        } else {
            "unhealthy"@
        }),
        r@[1].0@ == "signing_manager"@ && r@[1].1@ == (if signing_ok {
            "healthy"@
        } else {
            "unhealthy"@
        }),
        r@[2].0@ == "simulator"@ && r@[2].1@ == (if simulator_ok {
            "healthy"@
        } else {
            "unhealthy"@
        }),
        r@[3].0@ == "fee_manager"@ && r@[3].1@ == "healthy"@,
{
    let mut out: Vec<(String, String)> = Vec::new();
    let label = |ok: bool| -> (l: String)
        ensures
            l@ == (if ok {
                "healthy"@
            } else {
                "unhealthy"@
            }),
        {
            if ok {
                String::from_str("healthy")
            } else {
                String::from_str("unhealthy")
            }
        };
    out.push((String::from_str("rpc_client"), label(rpc_ok)));
    out.push((String::from_str("signing_manager"), label(signing_ok)));
    out.push((String::from_str("simulator"), label(simulator_ok)));
    out.push((String::from_str("fee_manager"), String::from_str("healthy")));
    out
}

/// The conflict scan over the bundle, reference by reference: `seen` holds
/// the keys already written; a writable reference to a seen key is a
/// conflict.
pub open spec fn spec_conflict_scan(instrs: Seq<Instruction>, i: int, j: int, seen: Set<Seq<u8>>) -> bool
    decreases instrs.len() - i, (if 0 <= i < instrs.len() { instrs[i].accounts@.len() + 1 - j } else { 0 }),
{
    if i < 0 || j < 0 || i >= instrs.len() {
        false
    } else if j >= instrs[i].accounts@.len() {
        spec_conflict_scan(instrs, i + 1, 0, seen)
    } else {
        let meta = instrs[i].accounts@[j];
        if meta.is_writable {
            if seen.contains(meta.pubkey.bytes@) {
                true
            } else {
                spec_conflict_scan(instrs, i, j + 1, seen.insert(meta.pubkey.bytes@))
            }
        } else {
            spec_conflict_scan(instrs, i, j + 1, seen)
        }
    }
}

/// Whether two account references in the bundle write to the same account.
pub open spec fn spec_has_conflicts(instrs: Seq<Instruction>) -> bool {
    spec_conflict_scan(instrs, 0, 0, Set::empty())
}

/// Tests whether two account references in the bundle write to the same
/// account.
pub fn has_account_conflicts(instructions: &Vec<Instruction>) -> (r: bool)
    ensures
        r == spec_has_conflicts(instructions@),
{
    let mut seen: Vec<Pubkey> = Vec::new();
    let ghost instrs = instructions@;
    let n = instructions.len();
    let mut i: usize = 0;
    proof {
        assert(spec_seen_set(seen@) =~= Set::<Seq<u8>>::empty());
    }
    while i < n
        invariant
            instrs == instructions@,
            n == instrs.len(),
            i <= n,
            spec_conflict_scan(instrs, i as int, 0, spec_seen_set(seen@)) == spec_has_conflicts(
                instrs,
            ),
        decreases n - i,
    {
        let m = instructions[i].accounts.len();
        let mut j: usize = 0;
        while j < m
            invariant
                instrs == instructions@,
                n == instrs.len(),
                i < n,
                m == instrs[i as int].accounts@.len(),
                j <= m,
                spec_conflict_scan(instrs, i as int, j as int, spec_seen_set(seen@))
                    == spec_has_conflicts(instrs),
            decreases m - j,
        {
            let meta = &instructions[i].accounts[j];
            if meta.is_writable {
                if crate::transaction::contains_key(&seen, &meta.pubkey) {
                    proof {
                        assert(spec_seen_set(seen@).contains(meta.pubkey.bytes@));
                    }
                    return true;
                }
                let ghost seen0 = seen@;
                seen.push(Pubkey { bytes: meta.pubkey.bytes.clone() });
                proof {
                    assert(!spec_seen_set(seen0).contains(meta.pubkey.bytes@));
                    assert(spec_seen_set(seen@) =~= spec_seen_set(seen0).insert(
                        meta.pubkey.bytes@,
                    )) by {
                        assert forall|k: Seq<u8>| spec_seen_set(seen@).contains(k)
                            implies spec_seen_set(seen0).insert(meta.pubkey.bytes@).contains(
                            k,
                        ) by {
                            let w = choose|w: int| 0 <= w < seen@.len() && seen@[w].bytes@ == k;
                            if w < seen0.len() {
                                assert(seen0[w].bytes@ == k);
                            }
                        }
                        assert forall|k: Seq<u8>|
                            spec_seen_set(seen0).insert(meta.pubkey.bytes@).contains(k)
                                implies spec_seen_set(seen@).contains(k) by {
                            if k == meta.pubkey.bytes@ {
                                assert(seen@[seen@.len() - 1].bytes@ == k);
                            } else {
                                let w = choose|w: int|
                                    0 <= w < seen0.len() && seen0[w].bytes@ == k;
                                assert(seen@[w].bytes@ == k);
                            }
                        }
                    }
                }
            }
            j = j + 1;
        }
        i = i + 1;
    }
    false
}

/// The set of keys a list of seen keys holds.
pub open spec fn spec_seen_set(seen: Seq<Pubkey>) -> Set<Seq<u8>> {
    Set::new(|k: Seq<u8>| crate::transaction::spec_contains_key(seen, k))
}

} // verus!

verus! {

/// What the driver must do next for the bundle.
#[derive(Debug, Clone, Copy, PartialEq, Eq, Structural)]
pub enum BundleAction {
    /// Simulate the transaction at this index.
    Simulate { tx_index: usize },
    /// Fetch a recent blockhash.
    FetchBlockhash,
    /// Sign the transaction at this index.
    Sign { tx_index: usize },
    /// Submit the transaction at this index.
    Submit { tx_index: usize },
    /// Sleep this long, then report back.
    Wait { delay_ms: u64 },
    /// Poll confirmation after this pause.
    ConfirmPoll { poll_interval_ms: u64 },
    /// Fetch the confirmed transaction's details.
    FetchDetails,
    /// The bundle is done; assemble the response.
    Finished,
}

/// Where the current transaction stands in its life cycle.
#[derive(Debug, Clone, Copy, PartialEq, Eq, Structural)]
pub enum TxPhase {
    NeedSimulation,
    NeedBlockhash,
    NeedSigning,
    NeedSubmit,
    Waiting,
    Confirming,
    NeedDetails,
    Done,
}

/// The retry delay before submit attempt `attempt + 1`: 100 ms, doubled per
/// failed attempt, saturating.
pub open spec fn spec_submit_delay(attempt: u32) -> u64
    decreases attempt,
{
    if attempt <= 1 {
        100
    } else {
        let prev = spec_submit_delay((attempt - 1) as u32);
        spec_sat_add_u64(prev, prev)
    }
}

/// The retry delay before the next submit attempt.
pub fn submit_delay_ms(attempt: u32) -> (r: u64)
    ensures
        r == spec_submit_delay(attempt),
{
    let mut d: u64 = 100;
    let mut k: u32 = 1;
    while k < attempt
        invariant
            1 <= k,
            attempt >= 1 ==> k <= attempt,
            attempt < 1 ==> k == 1,
            d == spec_submit_delay(k),
        decreases attempt - k,
    {
        d = sat_add_u64(d, d);
        k = k + 1;
    }
    proof {
        if attempt <= 1 {
            assert(d == spec_submit_delay(attempt));
        }
    }
    d
}

/// The running state of one bundle: its transactions, the current
/// transaction's phase, the collected results, and the counters the
/// response will report.
#[derive(Debug, Clone)]
pub struct BundleRun {
    pub atomic: bool,
    pub fee_manager: FeeManager,
    pub txs: Vec<Transaction>,
    pub current: usize,
    pub results: Vec<TransactionResult>,
    pub phase: TxPhase,
    pub attempt: u32,
    pub price: u64,
    pub retry_attempts: u32,
    pub timers: StageTimers,
    pub blockhash: Option<String>,
    pub confirm_elapsed_ms: u64,
    pub current_sig: Option<String>,
    pub pending_delay: u64,
}

/// How finishing the current transaction changes the run: the result is
/// appended; a failure under atomic policy ends the bundle, anything else
/// moves to the next transaction or ends the bundle when none is left.
/// Timers, counters and the fee state are untouched.
pub open spec fn spec_finish_rel(pre: BundleRun, post: BundleRun, result: TransactionResult) -> bool {
    &&& post.results@ == pre.results@.push(result)
    &&& post.atomic == pre.atomic
    &&& post.fee_manager == pre.fee_manager
    &&& post.txs@ == pre.txs@
    &&& post.retry_attempts == pre.retry_attempts
    &&& post.price == pre.price
    &&& post.blockhash == pre.blockhash
    &&& post.attempt == 0
    &&& post.confirm_elapsed_ms == 0
    &&& post.current_sig is None
    &&& post.pending_delay == pre.pending_delay
    &&& if result.status is Failed && pre.atomic {
        post.phase is Done && post.current == pre.current
    } else {
        post.current == pre.current + 1 && (if post.current >= pre.txs@.len() {
            post.phase is Done
        } else {
            post.phase is NeedSimulation
        })
    }
}

impl BundleRun {
    /// The run's internal coherence: the cursor stays within the
    /// transactions, a result exists for each passed transaction, and the
    /// transaction count is small enough to report.
    pub open spec fn wf(&self) -> bool {
        &&& self.txs@.len() <= 0xffff_ffff
        &&& self.results@.len() <= self.txs@.len()
        &&& !(self.phase is Done) ==> (self.current < self.txs@.len() && self.results@.len()
            == self.current)
        &&& self.fee_manager.wf()
    }

    /// What the driver must do next, by phase.
    pub fn next_action(&self) -> (r: BundleAction)
        ensures
            r == match self.phase {
                TxPhase::NeedSimulation => BundleAction::Simulate { tx_index: self.current },
                TxPhase::NeedBlockhash => BundleAction::FetchBlockhash,
                TxPhase::NeedSigning => BundleAction::Sign { tx_index: self.current },
                TxPhase::NeedSubmit => BundleAction::Submit { tx_index: self.current },
                TxPhase::Waiting => BundleAction::Wait { delay_ms: self.pending_delay },
                TxPhase::Confirming => BundleAction::ConfirmPoll {
                    poll_interval_ms: CONFIRM_POLL_INTERVAL_MS,
                },
                TxPhase::NeedDetails => BundleAction::FetchDetails,
                TxPhase::Done => BundleAction::Finished,
            },
    {
        match self.phase {
            TxPhase::NeedSimulation => BundleAction::Simulate { tx_index: self.current },
            TxPhase::NeedBlockhash => BundleAction::FetchBlockhash,
            TxPhase::NeedSigning => BundleAction::Sign { tx_index: self.current },
            TxPhase::NeedSubmit => BundleAction::Submit { tx_index: self.current },
            TxPhase::Waiting => BundleAction::Wait { delay_ms: self.pending_delay },
            TxPhase::Confirming => BundleAction::ConfirmPoll {
                poll_interval_ms: CONFIRM_POLL_INTERVAL_MS,
            },
            TxPhase::NeedDetails => BundleAction::FetchDetails,
            TxPhase::Done => BundleAction::Finished,
        }
    }

    /// Appends the current transaction's result and moves on: a failure
    /// under atomic policy ends the bundle; otherwise the next transaction
    /// begins, or the bundle ends when none is left.
    fn finish_current(&mut self, result: TransactionResult)
        requires
            old(self).wf(),
            !(old(self).phase is Done),
        ensures
            final(self).wf(),
            spec_finish_rel(*old(self), *final(self), result),
            final(self).timers == old(self).timers,
    {
        let failed = matches!(result.status, TransactionStatus::Failed);
        self.results.push(result);
        self.attempt = 0;
        self.confirm_elapsed_ms = 0;
        self.current_sig = None;
        if failed && self.atomic {
            self.phase = TxPhase::Done;
        } else {
            self.current = self.current + 1;
            if self.current >= self.txs.len() {
                self.phase = TxPhase::Done;
            } else {
                self.phase = TxPhase::NeedSimulation;
            }
        }
    }

    /// Takes in a simulation outcome: success moves on to the blockhash; a
    /// failed simulation fails the transaction with the simulation's error
    /// message (or a fixed note when it carries none).
    pub fn on_simulated(&mut self, sim: &SimulationResult, elapsed_ms: u64)
        requires
            old(self).wf(),
            old(self).phase is NeedSimulation,
        ensures
            final(self).wf(),
            final(self).timers.simulation_ms == spec_sat_add_u64(
                old(self).timers.simulation_ms,
                elapsed_ms,
            ),
            final(self).timers.signing_ms == old(self).timers.signing_ms,
            final(self).timers.submission_ms == old(self).timers.submission_ms,
            final(self).timers.confirmation_ms == old(self).timers.confirmation_ms,
            sim.success ==> {
                &&& final(self).phase is NeedBlockhash
                &&& final(self).results@ == old(self).results@
                &&& final(self).txs@ == old(self).txs@
                &&& final(self).current == old(self).current
                &&& final(self).retry_attempts == old(self).retry_attempts
                &&& final(self).price == old(self).price
                &&& final(self).fee_manager == old(self).fee_manager
            },
            !sim.success ==> exists|result: TransactionResult|
                {
                    &&& #[trigger] spec_finish_rel(
                        spec_with_timers(*old(self), final(self).timers),
                        *final(self),
                        result,
                    )
                    &&& result.status is Failed
                    &&& result.signature is None
                    &&& result.error matches Some(m) && (match sim.error {
                        Some(e) => m@ == e.message@,
                        None => m@ == "Simulation failed"@,
                    })
                },
    {
        self.timers.simulation_ms = sat_add_u64(self.timers.simulation_ms, elapsed_ms);
        if sim.success {
            self.phase = TxPhase::NeedBlockhash;
            return;
        }
        let message: String = match &sim.error {
            Some(e) => e.message.clone(),
            None => String::from_str("Simulation failed"),
        };
        let result = TransactionResult {
            signature: None,
            status: TransactionStatus::Failed,
            error: Some(message),
            compute_units_consumed: None,
            fee_paid_lamports: None,
            logs: Vec::new(),
        };
        let ghost mid = spec_with_timers(*old(self), self.timers);
        let ghost witness = result;
        self.finish_current(result);
        proof {
            assert(spec_finish_rel(mid, *self, witness));
        }
    }

    /// Takes in a fresh blockhash: it is written into the current
    /// transaction and remembered for the response; signing comes next.
    pub fn on_blockhash(&mut self, blockhash: String)
        requires
            old(self).wf(),
            old(self).phase is NeedBlockhash,
        ensures
            final(self).wf(),
            final(self).phase is NeedSigning,
            final(self).results@ == old(self).results@,
            final(self).timers == old(self).timers,
            final(self).retry_attempts == old(self).retry_attempts,
            final(self).price == old(self).price,
            final(self).fee_manager == old(self).fee_manager,
            final(self).current == old(self).current,
            final(self).txs@.len() == old(self).txs@.len(),
            final(self).blockhash matches Some(b) && b@ == blockhash@,
            final(self).txs@[old(self).current as int].message.recent_blockhash@ == blockhash@,
            final(self).txs@[old(self).current as int].message.header == old(self).txs@[old(self).current as int].message.header,
            final(self).txs@[old(self).current as int].message.account_keys == old(self).txs@[old(self).current as int].message.account_keys,
            final(self).txs@[old(self).current as int].message.instructions == old(self).txs@[old(self).current as int].message.instructions,
            final(self).txs@[old(self).current as int].signatures == old(self).txs@[old(self).current as int].signatures,
            forall|j: int|
                0 <= j < old(self).txs@.len() && j != old(self).current as int ==> final(self).txs@[j] == old(self).txs@[j],
    {
        let ghost bh = blockhash@;
        self.blockhash = Some(blockhash.clone());
        let i = self.current;
        let ghost txs0 = self.txs@;
        let mut tx = self.txs.remove(i);
        set_blockhash(&mut tx, blockhash);
        self.txs.insert(i, tx);
        proof {
            assert forall|j: int|
                0 <= j < txs0.len() && j != i as int implies self.txs@[j] == txs0[j] by {
                if j < i as int {
                } else {
                    assert(self.txs@[j] == txs0.remove(i as int)[j - 1]);
                }
            }
        }
        self.phase = TxPhase::NeedSigning;
    }

    /// Reports the signing outcome: success moves on to submission; a
    /// failure fails the transaction with the signing error's message.
    pub fn on_signed(&mut self, outcome: &BundlerResult<()>, elapsed_ms: u64)
        requires
            old(self).wf(),
            old(self).phase is NeedSigning,
        ensures
            final(self).wf(),
            final(self).timers.signing_ms == spec_sat_add_u64(
                old(self).timers.signing_ms,
                elapsed_ms,
            ),
            final(self).timers.simulation_ms == old(self).timers.simulation_ms,
            final(self).timers.submission_ms == old(self).timers.submission_ms,
            final(self).timers.confirmation_ms == old(self).timers.confirmation_ms,
            outcome is Ok ==> {
                &&& final(self).phase is NeedSubmit
                &&& final(self).results@ == old(self).results@
                &&& final(self).txs@ == old(self).txs@
                &&& final(self).current == old(self).current
                &&& final(self).retry_attempts == old(self).retry_attempts
                &&& final(self).price == old(self).price
                &&& final(self).fee_manager == old(self).fee_manager
            },
            outcome matches Err(e) ==> exists|result: TransactionResult|
                {
                    &&& #[trigger] spec_finish_rel(
                        spec_with_timers(*old(self), final(self).timers),
                        *final(self),
                        result,
                    )
                    &&& result.status is Failed
                    &&& result.signature is None
                    &&& result.error matches Some(m) && m@ == e.spec_prefix() + e.spec_message()
                },
    {
        self.timers.signing_ms = sat_add_u64(self.timers.signing_ms, elapsed_ms);
        match outcome {
            Ok(_) => {
                self.phase = TxPhase::NeedSubmit;
            },
            Err(e) => {
                let result = TransactionResult {
                    signature: None,
                    status: TransactionStatus::Failed,
                    error: Some(e.display_string()),
                    compute_units_consumed: None,
                    fee_paid_lamports: None,
                    logs: Vec::new(),
                };
                let ghost mid = spec_with_timers(*old(self), self.timers);
                let ghost witness = result;
                self.finish_current(result);
                proof {
                    assert(spec_finish_rel(mid, *self, witness));
                }
            },
        }
    }
}

/// The run with its timers replaced: how a run looks after only its timers
/// moved.
pub open spec fn spec_with_timers(run: BundleRun, timers: StageTimers) -> BundleRun {
    BundleRun { timers, ..run }
}

/// The run with its timers and retry counter replaced.
pub open spec fn spec_with_counters(run: BundleRun, timers: StageTimers, retry_attempts: u32) -> BundleRun {
    BundleRun { timers, retry_attempts, ..run }
}

/// The run with its timers and confirmation clock replaced.
pub open spec fn spec_with_poll(run: BundleRun, timers: StageTimers, confirm_elapsed_ms: u64) -> BundleRun {
    BundleRun { timers, confirm_elapsed_ms, ..run }
}

} // verus!

verus! {

impl BundleRun {
    /// Takes in a successful submission: the signature is recorded and
    /// confirmation polling begins.
    pub fn on_submitted_ok(&mut self, signature: String, elapsed_ms: u64)
        requires
            old(self).wf(),
            old(self).phase is NeedSubmit,
        ensures
            final(self).wf(),
            final(self).phase is Confirming,
            final(self).timers.submission_ms == spec_sat_add_u64(
                old(self).timers.submission_ms,
                elapsed_ms,
            ),
            final(self).timers.simulation_ms == old(self).timers.simulation_ms,
            final(self).timers.signing_ms == old(self).timers.signing_ms,
            final(self).timers.confirmation_ms == old(self).timers.confirmation_ms,
            final(self).current_sig matches Some(s) && s@ == signature@,
            final(self).confirm_elapsed_ms == 0,
            final(self).results@ == old(self).results@,
            final(self).txs@ == old(self).txs@,
            final(self).current == old(self).current,
            final(self).attempt == old(self).attempt,
            final(self).retry_attempts == old(self).retry_attempts,
            final(self).price == old(self).price,
            final(self).fee_manager == old(self).fee_manager,
    {
        self.timers.submission_ms = sat_add_u64(self.timers.submission_ms, elapsed_ms);
        self.current_sig = Some(signature);
        self.confirm_elapsed_ms = 0;
        self.phase = TxPhase::Confirming;
    }

    /// Takes in a failed submission. While attempts remain, the retry
    /// counter grows, the price is bumped (when bumping is enabled and
    /// within its budget), the set-price instruction is rewritten to the
    /// new price, and the driver is told to wait before fetching a fresh
    /// blockhash and re-signing. After the last attempt the transaction
    /// fails with a `Transaction` error message.
    pub fn on_submit_failed(&mut self, elapsed_ms: u64)
        requires
            old(self).wf(),
            old(self).phase is NeedSubmit,
            old(self).attempt < MAX_SUBMIT_ATTEMPTS,
        ensures
            final(self).wf(),
            final(self).timers.submission_ms == spec_sat_add_u64(
                old(self).timers.submission_ms,
                elapsed_ms,
            ),
            final(self).timers.simulation_ms == old(self).timers.simulation_ms,
            final(self).timers.signing_ms == old(self).timers.signing_ms,
            final(self).timers.confirmation_ms == old(self).timers.confirmation_ms,
            final(self).retry_attempts as int == (if old(self).retry_attempts == u32::MAX {
                u32::MAX as int
            } else {
                old(self).retry_attempts + 1
            }),
            old(self).attempt + 1 < MAX_SUBMIT_ATTEMPTS ==> {
                &&& final(self).phase is Waiting
                &&& final(self).attempt == old(self).attempt + 1
                &&& final(self).pending_delay == spec_submit_delay((old(self).attempt + 1) as u32)
                &&& final(self).results@ == old(self).results@
                &&& final(self).current == old(self).current
                &&& (old(self).fee_manager.strategy.enable_bump && old(self).attempt + 1 <= old(self).fee_manager.strategy.max_bump_attempts) ==> final(self).price == spec_bump_value(
                    old(self).price,
                    (old(self).attempt + 1) as nat,
                    old(self).fee_manager.strategy.max_price_lamports,
                )
                &&& !old(self).fee_manager.strategy.enable_bump ==> final(self).price == old(self).price
                &&& ((old(self).fee_manager.strategy.enable_bump ==> old(self).attempt + 1 <= old(
                    self,
                ).fee_manager.strategy.max_bump_attempts) && (exists|i: int|
                    spec_is_price_ix(old(self).txs@[old(self).current as int].message, i)))
                    ==> exists|i: int|
                    {
                        &&& #[trigger] spec_is_price_ix(
                            old(self).txs@[old(self).current as int].message,
                            i,
                        )
                        &&& vstd::bytes::spec_u64_from_le_bytes(
                            final(self).txs@[old(self).current as int].message.instructions@[
                            i].data@.subrange(1, 9),
                        ) == final(self).price
                    }
                &&& final(self).txs@.len() == old(self).txs@.len()
                &&& forall|j: int|
                    0 <= j < old(self).txs@.len() && j != old(self).current as int ==> final(self).txs@[j] == old(self).txs@[j]
            },
            old(self).attempt + 1 >= MAX_SUBMIT_ATTEMPTS ==> exists|result: TransactionResult|
                {
                    &&& #[trigger] spec_finish_rel(
                        spec_with_counters(
                            *old(self),
                            final(self).timers,
                            final(self).retry_attempts,
                        ),
                        *final(self),
                        result,
                    )
                    &&& result.status is Failed
                    &&& result.signature is None
                    &&& result.error matches Some(m) && m@
                        == "Transaction submission failed after 3 attempts"@
                },
    {
        self.timers.submission_ms = sat_add_u64(self.timers.submission_ms, elapsed_ms);
        self.retry_attempts = if self.retry_attempts == 0xffff_ffff {
            0xffff_ffff
        } else {
            self.retry_attempts + 1
        };
        let next_attempt = self.attempt + 1;
        if next_attempt < MAX_SUBMIT_ATTEMPTS {
            self.attempt = next_attempt;
            match self.fee_manager.bump_fee(self.price, next_attempt) {
                Ok(bumped) => {
                    self.price = bumped;
                    let i = self.current;
                    let ghost txs0 = self.txs@;
                    let mut tx = self.txs.remove(i);
                    let ghost tx0 = tx;
                    let _ = update_transaction_fee(&mut tx, self.price);
                    self.txs.insert(i, tx);
                    proof {
                        assert forall|j: int|
                            0 <= j < txs0.len() && j != i as int implies self.txs@[j] == txs0[j] by {
                            if j < i as int {
                            } else {
                                assert(self.txs@[j] == txs0.remove(i as int)[j - 1]);
                            }
                        }
                        assert(self.txs@[i as int] == tx);
                    }
                },
                Err(_) => {},
            }
            self.pending_delay = submit_delay_ms(next_attempt);
            self.phase = TxPhase::Waiting;
        } else {
            let result = TransactionResult {
                signature: None,
                status: TransactionStatus::Failed,
                error: Some(String::from_str("Transaction submission failed after 3 attempts")),
                compute_units_consumed: None,
                fee_paid_lamports: None,
                logs: Vec::new(),
            };
            let ghost mid = spec_with_counters(*old(self), self.timers, self.retry_attempts);
            let ghost witness = result;
            self.finish_current(result);
            proof {
                assert(spec_finish_rel(mid, *self, witness));
            }
        }
    }

    /// The driver finished waiting: fetch a fresh blockhash and re-sign.
    pub fn on_waited(&mut self)
        requires
            old(self).wf(),
            old(self).phase is Waiting,
        ensures
            final(self).wf(),
            (*final(self) == BundleRun { phase: TxPhase::NeedBlockhash, ..*old(self) }),
    {
        self.phase = TxPhase::NeedBlockhash;
    }

    /// Takes in one confirmation poll. A finalized transaction moves on to
    /// the detail fetch; a confirmed one finishes as confirmed; one that
    /// merely exists finishes as processed; and when the transaction is
    /// still unseen past the confirmation deadline it finishes as failed
    /// with no error reported. Otherwise polling continues.
    pub fn on_confirm(&mut self, confirmed: bool, finalized: bool, tx_exists: bool, elapsed_ms: u64)
        requires
            old(self).wf(),
            old(self).phase is Confirming,
            old(self).current_sig is Some,
        ensures
            final(self).wf(),
            final(self).timers.confirmation_ms == spec_sat_add_u64(
                old(self).timers.confirmation_ms,
                elapsed_ms,
            ),
            final(self).timers.simulation_ms == old(self).timers.simulation_ms,
            final(self).timers.signing_ms == old(self).timers.signing_ms,
            final(self).timers.submission_ms == old(self).timers.submission_ms,
            confirmed && finalized ==> (*final(self) == BundleRun {
                timers: final(self).timers,
                confirm_elapsed_ms: final(self).confirm_elapsed_ms,
                phase: TxPhase::NeedDetails,
                ..*old(self)
            }),
            confirmed && !finalized ==> exists|result: TransactionResult|
                {
                    &&& #[trigger] spec_finish_rel(
                        spec_with_poll(
                            *old(self),
                            final(self).timers,
                            final(self).confirm_elapsed_ms,
                        ),
                        *final(self),
                        result,
                    )
                    &&& result.status is Confirmed
                    &&& result.error is None
                    &&& (old(self).current_sig matches Some(s) ==> result.signature matches Some(
                        rs,
                    ) && rs@ == s@)
                },
            !confirmed && tx_exists ==> exists|result: TransactionResult|
                {
                    &&& #[trigger] spec_finish_rel(
                        spec_with_poll(
                            *old(self),
                            final(self).timers,
                            final(self).confirm_elapsed_ms,
                        ),
                        *final(self),
                        result,
                    )
                    &&& result.status is Processed
                    &&& result.error is None
                },
            (!confirmed && !tx_exists && spec_sat_add_u64(old(self).confirm_elapsed_ms, elapsed_ms)
                >= CONFIRM_TIMEOUT_MS) ==> exists|result: TransactionResult|
                {
                    &&& #[trigger] spec_finish_rel(
                        spec_with_poll(
                            *old(self),
                            final(self).timers,
                            final(self).confirm_elapsed_ms,
                        ),
                        *final(self),
                        result,
                    )
                    &&& result.status is Failed
                    &&& result.error is None
                },
            (!confirmed && !tx_exists && spec_sat_add_u64(old(self).confirm_elapsed_ms, elapsed_ms)
                < CONFIRM_TIMEOUT_MS) ==> (*final(self) == BundleRun {
                timers: final(self).timers,
                confirm_elapsed_ms: spec_sat_add_u64(old(self).confirm_elapsed_ms, elapsed_ms),
                ..*old(self)
            }),
    {
        self.timers.confirmation_ms = sat_add_u64(self.timers.confirmation_ms, elapsed_ms);
        self.confirm_elapsed_ms = sat_add_u64(self.confirm_elapsed_ms, elapsed_ms);
        if confirmed && finalized {
            self.phase = TxPhase::NeedDetails;
            return;
        }
        let sig: Option<String> = match &self.current_sig {
            Some(s) => Some(s.clone()),
            None => None,
        };
        if confirmed {
            let result = TransactionResult {
                signature: sig,
                status: TransactionStatus::Confirmed,
                error: None,
                compute_units_consumed: None,
                fee_paid_lamports: None,
                logs: Vec::new(),
            };
            let ghost witness = result;
            self.finish_current(result);
            proof {
                assert(spec_finish_rel(
                    spec_with_poll(*old(self), self.timers, self.confirm_elapsed_ms),
                    *self,
                    witness,
                ));
            }
            return;
        }
        if tx_exists {
            let result = TransactionResult {
                signature: sig,
                status: TransactionStatus::Processed,
                error: None,
                compute_units_consumed: None,
                fee_paid_lamports: None,
                logs: Vec::new(),
            };
            let ghost witness = result;
            self.finish_current(result);
            proof {
                assert(spec_finish_rel(
                    spec_with_poll(*old(self), self.timers, self.confirm_elapsed_ms),
                    *self,
                    witness,
                ));
            }
            return;
        }
        if self.confirm_elapsed_ms >= CONFIRM_TIMEOUT_MS {
            let result = TransactionResult {
                signature: sig,
                status: TransactionStatus::Failed,
                error: None,
                compute_units_consumed: None,
                fee_paid_lamports: None,
                logs: Vec::new(),
            };
            let ghost witness = result;
            self.finish_current(result);
            proof {
                assert(spec_finish_rel(
                    spec_with_poll(*old(self), self.timers, self.confirm_elapsed_ms),
                    *self,
                    witness,
                ));
            }
        }
    }

    /// Takes in the confirmed transaction's details and finishes it as
    /// finalized, carrying whatever details were found.
    pub fn on_details(
        &mut self,
        compute_units: Option<u32>,
        fee_paid: Option<u64>,
        logs: Vec<String>,
    )
        requires
            old(self).wf(),
            old(self).phase is NeedDetails,
        ensures
            final(self).wf(),
            final(self).timers == old(self).timers,
            exists|result: TransactionResult|
                {
                    &&& #[trigger] spec_finish_rel(*old(self), *final(self), result)
                    &&& result.status is Finalized
                    &&& result.error is None
                    &&& result.compute_units_consumed == compute_units
                    &&& result.fee_paid_lamports == fee_paid
                    &&& result.logs@ == logs@
                    &&& (old(self).current_sig matches Some(s) ==> result.signature matches Some(
                        rs,
                    ) && rs@ == s@)
                },
    {
        let sig: Option<String> = match &self.current_sig {
            Some(s) => Some(s.clone()),
            None => None,
        };
        let result = TransactionResult {
            signature: sig,
            status: TransactionStatus::Finalized,
            error: None,
            compute_units_consumed: compute_units,
            fee_paid_lamports: fee_paid,
            logs,
        };
        let ghost witness = result;
        self.finish_current(result);
        proof {
            assert(spec_finish_rel(*old(self), *self, witness));
        }
    }
}

} // verus!

verus! {

/// The keys a bundle's transaction references: the fee payer, the
/// compute-budget program, and everything the client instructions name.
pub open spec fn spec_bundle_referenced_keys(instrs: Seq<Instruction>, fee_payer: Seq<u8>) -> Set<
    Seq<u8>,
> {
    spec_referenced_keys(instrs, fee_payer).insert(spec_compute_budget_id())
}

/// Builds the bundle's transactions: a set-compute-unit-limit and a
/// set-compute-unit-price instruction are prepended to the client
/// instructions and the whole is compiled into one transaction under the
/// fee payer. The price comes from the fee controller when the policy says
/// auto, else from the policy; an automatic limit takes the simulator's
/// pre-simulation estimate for the instruction count. Succeeds exactly when
/// the bundle references at most 255 distinct keys; returns the
/// transactions, the price and the limit.
pub fn create_transactions(
    instructions: Vec<Instruction>,
    compute: &ComputeConfig,
    fee_manager: &mut FeeManager,
    recent_fees: &Vec<u64>,
    now_ms: u64,
    fee_payer: &Pubkey,
) -> (r: BundlerResult<(Vec<Transaction>, u64, u32)>)
    requires
        old(fee_manager).wf(),
    ensures
        final(fee_manager).wf(),
        final(fee_manager).strategy == old(fee_manager).strategy,
        r is Ok <==> spec_bundle_referenced_keys(instructions@, fee_payer.bytes@).len() <= 255,
        compute.price matches ComputePrice::Fixed(p) ==> (*final(fee_manager) == *old(
            fee_manager,
        ) && (r matches Ok(t) ==> t.1 == p)),
        compute.price is Auto ==> (r matches Ok(t) ==> ((recent_fees@.len() == 0 ==> t.1 == 1) && (
        recent_fees@.len() > 0 ==> t.1 == spec_price(
            old(fee_manager).strategy,
            history_fees(old(fee_manager).fee_history@),
            recent_fees@,
        ) && t.1 <= old(fee_manager).strategy.max_price_lamports))),
        compute.limit matches ComputeLimit::Fixed(u) ==> (r matches Ok(t) ==> t.2 == u),
        compute.limit is Auto ==> (r matches Ok(t) ==> t.2
            == crate::simulator::spec_estimate_compute_units(None, instructions@.len() as int)),
        r matches Ok(t) ==> {
            &&& t.0@.len() == 1
            &&& t.0@[0].signatures@.len() >= 1
            &&& forall|k: int|
                0 <= k < t.0@[0].signatures@.len() ==> (#[trigger] t.0@[0].signatures@[k])@.len()
                    == 0
            &&& t.0@[0].message.account_keys@.len() >= 1
            &&& t.0@[0].message.account_keys@[0].bytes@ == fee_payer.bytes@
            &&& t.0@[0].message.instructions@.len() == instructions@.len() + 2
            &&& spec_is_price_ix(t.0@[0].message, 1)
            &&& vstd::bytes::spec_u64_from_le_bytes(
                t.0@[0].message.instructions@[1].data@.subrange(1, 9),
            ) == t.1
            &&& forall|i: int|
                0 <= i < instructions@.len() ==> t.0@[0].message.instructions@[i + 2].data@ == (
                #[trigger] instructions@[i]).data@
        },
        r matches Err(e) ==> e is InvalidInput,
{
    let price: u64 = match compute.price {
        ComputePrice::Auto => fee_manager.calculate_fee(recent_fees, now_ms),
        ComputePrice::Fixed(p) => p,
    };
    let limit: u32 = match compute.limit {
        ComputeLimit::Auto => {
            if instructions.len() >= 140 {
                crate::simulator::MAX_COMPUTE_ESTIMATE
            } else {
                1_000 + 10_000 * (instructions.len() as u32)
            }
        },
        ComputeLimit::Fixed(u) => u,
    };
    let ix_limit = Instruction {
        program_id: compute_budget_program(),
        accounts: Vec::new(),
        data: budget_data_limit(limit),
    };
    let ix_price = Instruction {
        program_id: compute_budget_program(),
        accounts: Vec::new(),
        data: budget_data_price(price),
    };
    let ghost orig = instructions@;
    let mut rest = instructions;
    let mut all: Vec<Instruction> = Vec::new();
    all.push(ix_limit);
    all.push(ix_price);
    let ghost prefix = all@;
    proof {
        assert(prefix[0].accounts@.len() == 0 && prefix[0].program_id.bytes@
            == spec_compute_budget_id());
        assert(prefix[1].accounts@.len() == 0 && prefix[1].program_id.bytes@
            == spec_compute_budget_id());
    }
    while rest.len() > 0
        invariant
            prefix.len() == 2,
            all@.len() == 2 + orig.len() - rest@.len(),
            rest@.len() <= orig.len(),
            all@ =~= prefix + orig.subrange(0, orig.len() - rest@.len()),
            rest@ =~= orig.subrange(orig.len() - rest@.len(), orig.len() as int),
        decreases rest@.len(),
    {
        let ghost done = orig.len() - rest@.len();
        let ix = rest.remove(0);
        all.push(ix);
        proof {
            assert(all@ =~= prefix + orig.subrange(0, done + 1));
            assert(rest@ =~= orig.subrange(done + 1, orig.len() as int));
        }
    }
    proof {
        assert(all@ =~= prefix + orig);
        let gfp = fee_payer.bytes@;
        assert(spec_referenced_keys(all@, gfp) =~= spec_bundle_referenced_keys(orig, gfp)) by {
            assert forall|k: Seq<u8>| spec_referenced_keys(all@, gfp).contains(k)
                implies spec_bundle_referenced_keys(orig, gfp).contains(k) by {
                if k == gfp {
                } else if exists|i: int, j: int|
                    0 <= i < all@.len() && 0 <= j < all@[i].accounts@.len() && (
                #[trigger] all@[i].accounts@[j]).pubkey.bytes@ == k {
                    let (i, j) = choose|i: int, j: int|
                        0 <= i < all@.len() && 0 <= j < all@[i].accounts@.len() && (
                        #[trigger] all@[i].accounts@[j]).pubkey.bytes@ == k;
                    assert(i >= 2);
                    assert(orig[i - 2].accounts@[j].pubkey.bytes@ == k);
                    assert(spec_key_referenced(orig, gfp, k));
                } else {
                    let i = choose|i: int|
                        0 <= i < all@.len() && (#[trigger] all@[i]).program_id.bytes@ == k;
                    if i >= 2 {
                        assert(orig[i - 2].program_id.bytes@ == k);
                        assert(spec_key_referenced(orig, gfp, k));
                    } else {
                        assert(k == spec_compute_budget_id());
                    }
                }
            }
            assert forall|k: Seq<u8>| spec_bundle_referenced_keys(orig, gfp).contains(k)
                implies spec_referenced_keys(all@, gfp).contains(k) by {
                if k == spec_compute_budget_id() {
                    assert(all@[0].program_id.bytes@ == k);
                } else if k == gfp {
                } else if exists|i: int, j: int|
                    0 <= i < orig.len() && 0 <= j < orig[i].accounts@.len() && (
                #[trigger] orig[i].accounts@[j]).pubkey.bytes@ == k {
                    let (i, j) = choose|i: int, j: int|
                        0 <= i < orig.len() && 0 <= j < orig[i].accounts@.len() && (
                        #[trigger] orig[i].accounts@[j]).pubkey.bytes@ == k;
                    assert(all@[i + 2].accounts@[j].pubkey.bytes@ == k);
                    assert(spec_key_referenced(all@, gfp, k));
                } else {
                    let i = choose|i: int|
                        0 <= i < orig.len() && (#[trigger] orig[i]).program_id.bytes@ == k;
                    assert(all@[i + 2].program_id.bytes@ == k);
                    assert(spec_key_referenced(all@, gfp, k));
                }
            }
        }
    }
    let msg = match compile_message(&all, fee_payer) {
        Ok(m) => m,
        Err(e) => {
            return Err(e);
        },
    };
    let tx = new_unsigned_transaction(msg);
    proof {
        assert(all@[1].data@.subrange(1, 9) =~= vstd::bytes::spec_u64_to_le_bytes(price));
        assert(tx.message.instructions@[1].data@.subrange(1, 9) =~= all@[1].data@.subrange(1, 9));
        assert(spec_is_price_ix(tx.message, 1));
    }
    let mut txs: Vec<Transaction> = Vec::new();
    txs.push(tx);
    Ok((txs, price, limit))
}

/// Whether `instrs` is what decoding `data` yields, looking only at the
/// parts validation and key collection read: programs, account references
/// and their flags.
pub open spec fn spec_decodes_to(data: Seq<InstructionData>, instrs: Seq<Instruction>) -> bool {
    &&& instrs.len() == data.len()
    &&& forall|i: int|
        0 <= i < data.len() ==> {
            &&& (#[trigger] instrs[i]).program_id.bytes@ == data[i].program_id.bytes@
            &&& instrs[i].accounts@.len() == data[i].keys@.len()
            &&& forall|j: int|
                0 <= j < data[i].keys@.len() ==> spec_meta_eq(
                    #[trigger] instrs[i].accounts@[j],
                    data[i].keys@[j],
                )
        }
}

/// The first client instruction whose program is outside the allow-list,
/// before decoding.
pub open spec fn spec_data_first_not_whitelisted(
    cfg: SecurityConfig,
    data: Seq<InstructionData>,
    i: int,
) -> Option<int>
    decreases data.len() - i,
{
    if i < 0 || i >= data.len() {
        None
    } else if !cfg.spec_is_program_whitelisted(&data[i].program_id) {
        Some(i)
    } else {
        spec_data_first_not_whitelisted(cfg, data, i + 1)
    }
}

/// The first client instruction with too many writable accounts, before
/// decoding.
pub open spec fn spec_data_first_too_writable(
    cfg: SecurityConfig,
    data: Seq<InstructionData>,
    i: int,
) -> Option<int>
    decreases data.len() - i,
{
    if i < 0 || i >= data.len() {
        None
    } else if spec_writable_count(data[i].keys@) > cfg.max_writable_accounts as int {
        Some(i)
    } else {
        spec_data_first_too_writable(cfg, data, i + 1)
    }
}

/// The policy verdict on a bundle as received, before decoding: the same
/// checks, read off the wire form.
pub open spec fn spec_validate_data(cfg: SecurityConfig, data: Seq<InstructionData>) -> ValidationVerdict {
    if !cfg.validate_instructions {
        ValidationVerdict::Accept
    } else if data.len() > cfg.max_bundle_size as int {
        ValidationVerdict::TooLarge
    } else {
        let nw = if cfg.program_whitelist@.len() > 0 {
            spec_data_first_not_whitelisted(cfg, data, 0)
        } else {
            None
        };
        match nw {
            Some(i) => ValidationVerdict::NotWhitelisted(i),
            None => match spec_data_first_too_writable(cfg, data, 0) {
                Some(i) => ValidationVerdict::TooManyWritable(i),
                None => ValidationVerdict::Accept,
            },
        }
    }
}

/// Account references that agree entry for entry have the same writable
/// count.
proof fn lemma_writable_count_congruent(a: Seq<AccountMeta>, b: Seq<AccountMeta>)
    requires
        a.len() == b.len(),
        forall|j: int| 0 <= j < a.len() ==> spec_meta_eq(#[trigger] a[j], b[j]),
    ensures
        spec_writable_count(a) == spec_writable_count(b),
    decreases a.len(),
{
    if a.len() > 0 {
        assert(spec_meta_eq(a[a.len() - 1], b[b.len() - 1]));
        assert forall|j: int| 0 <= j < a.drop_last().len() implies spec_meta_eq(
            #[trigger] a.drop_last()[j],
            b.drop_last()[j],
        ) by {
            assert(spec_meta_eq(a[j], b[j]));
        }
        lemma_writable_count_congruent(a.drop_last(), b.drop_last());
    }
}

/// Decoding changes no program, so the allow-list scan agrees before and
/// after it.
proof fn lemma_first_nw_congruent(
    cfg: SecurityConfig,
    data: Seq<InstructionData>,
    instrs: Seq<Instruction>,
    i: int,
)
    requires
        spec_decodes_to(data, instrs),
        0 <= i,
    ensures
        spec_first_not_whitelisted(cfg, instrs, i) == spec_data_first_not_whitelisted(cfg, data, i),
    decreases data.len() - i,
{
    if i < data.len() {
        assert(cfg.spec_is_program_whitelisted(&instrs[i].program_id)
            == cfg.spec_is_program_whitelisted(&data[i].program_id)) by {
            assert(instrs[i].program_id.bytes@ == data[i].program_id.bytes@);
        }
        lemma_first_nw_congruent(cfg, data, instrs, i + 1);
    }
}

/// Decoding changes no account flags, so the writable scan agrees before
/// and after it.
proof fn lemma_first_tw_congruent(
    cfg: SecurityConfig,
    data: Seq<InstructionData>,
    instrs: Seq<Instruction>,
    i: int,
)
    requires
        spec_decodes_to(data, instrs),
        0 <= i,
    ensures
        spec_first_too_writable(cfg, instrs, i) == spec_data_first_too_writable(cfg, data, i),
    decreases data.len() - i,
{
    if i < data.len() {
        lemma_writable_count_congruent(instrs[i].accounts@, data[i].keys@);
        lemma_first_tw_congruent(cfg, data, instrs, i + 1);
    }
}

/// The policy verdict is the same whether it is read off the wire form or
/// the decoded instructions.
pub proof fn lemma_validate_congruent(
    cfg: SecurityConfig,
    data: Seq<InstructionData>,
    instrs: Seq<Instruction>,
)
    requires
        spec_decodes_to(data, instrs),
    ensures
        spec_validate(cfg, instrs) == spec_validate_data(cfg, data),
{
    lemma_first_nw_congruent(cfg, data, instrs, 0);
    lemma_first_tw_congruent(cfg, data, instrs, 0);
}

/// Which keys a bundle as received references, before decoding.
pub open spec fn spec_data_key_referenced(
    data: Seq<InstructionData>,
    fee_payer: Seq<u8>,
    key: Seq<u8>,
) -> bool {
    ||| key == fee_payer
    ||| exists|i: int, j: int|
        0 <= i < data.len() && 0 <= j < data[i].keys@.len() && (
        #[trigger] data[i].keys@[j]).pubkey.bytes@ == key
    ||| exists|i: int| 0 <= i < data.len() && (#[trigger] data[i]).program_id.bytes@ == key
}

/// The keys a bundle's transaction will reference, read off the wire form:
/// the fee payer, the compute-budget program, and everything the client
/// instructions name.
pub open spec fn spec_data_bundle_keys(data: Seq<InstructionData>, fee_payer: Seq<u8>) -> Set<
    Seq<u8>,
> {
    Set::new(|k: Seq<u8>| spec_data_key_referenced(data, fee_payer, k)).insert(
        spec_compute_budget_id(),
    )
}

/// Decoding changes no key, so the referenced-key set is the same before
/// and after it.
pub proof fn lemma_referenced_congruent(
    data: Seq<InstructionData>,
    instrs: Seq<Instruction>,
    fee_payer: Seq<u8>,
)
    requires
        spec_decodes_to(data, instrs),
    ensures
        spec_bundle_referenced_keys(instrs, fee_payer) == spec_data_bundle_keys(data, fee_payer),
{
    assert(spec_referenced_keys(instrs, fee_payer) =~= Set::new(
        |k: Seq<u8>| spec_data_key_referenced(data, fee_payer, k),
    )) by {
        assert forall|k: Seq<u8>| spec_key_referenced(instrs, fee_payer, k)
            implies spec_data_key_referenced(data, fee_payer, k) by {
            if k == fee_payer {
            } else if exists|i: int, j: int|
                0 <= i < instrs.len() && 0 <= j < instrs[i].accounts@.len() && (
            #[trigger] instrs[i].accounts@[j]).pubkey.bytes@ == k {
                let (i, j) = choose|i: int, j: int|
                    0 <= i < instrs.len() && 0 <= j < instrs[i].accounts@.len() && (
                    #[trigger] instrs[i].accounts@[j]).pubkey.bytes@ == k;
                assert(spec_meta_eq(instrs[i].accounts@[j], data[i].keys@[j]));
                assert((data[i].keys@[j]).pubkey.bytes@ == k);
            } else {
                let i = choose|i: int|
                    0 <= i < instrs.len() && (#[trigger] instrs[i]).program_id.bytes@ == k;
                assert((data[i]).program_id.bytes@ == k);
            }
        }
        assert forall|k: Seq<u8>| spec_data_key_referenced(data, fee_payer, k)
            implies spec_key_referenced(instrs, fee_payer, k) by {
            if k == fee_payer {
            } else if exists|i: int, j: int|
                0 <= i < data.len() && 0 <= j < data[i].keys@.len() && (
            #[trigger] data[i].keys@[j]).pubkey.bytes@ == k {
                let (i, j) = choose|i: int, j: int|
                    0 <= i < data.len() && 0 <= j < data[i].keys@.len() && (
                    #[trigger] data[i].keys@[j]).pubkey.bytes@ == k;
                assert(spec_meta_eq(instrs[i].accounts@[j], data[i].keys@[j]));
                assert((instrs[i].accounts@[j]).pubkey.bytes@ == k);
            } else {
                let i = choose|i: int|
                    0 <= i < data.len() && (#[trigger] data[i]).program_id.bytes@ == k;
                assert((instrs[i]).program_id.bytes@ == k);
            }
        }
    }
}

/// Starts a bundle: decodes the client instructions, validates them against
/// the policy, prices and compiles the transaction, and hands back the run
/// in its first phase. It succeeds exactly when every payload decodes, the
/// policy accepts the bundle, and at most 255 distinct keys are referenced;
/// undecodable payloads and oversized account tables fail with
/// `InvalidInput`, policy violations with a `Simulation` error, all before
/// any outside call is asked for.
pub fn begin_bundle(
    request: &BundleRequest,
    simulator: &TransactionSimulator,
    fee_manager: FeeManager,
    fee_payer: &Pubkey,
    recent_fees: &Vec<u64>,
    now_ms: u64,
) -> (r: BundlerResult<BundleRun>)
    requires
        fee_manager.wf(),
    ensures
        r is Ok <==> ((forall|i: int|
            0 <= i < request.instructions@.len() ==> b64_decode_of(
                (#[trigger] request.instructions@[i]).data_b64@,
            ) is Some) && spec_validate_data(simulator.security_config, request.instructions@)
            is Accept && spec_data_bundle_keys(request.instructions@, fee_payer.bytes@).len()
            <= 255),
        (exists|i: int|
            0 <= i < request.instructions@.len() && b64_decode_of(
                (#[trigger] request.instructions@[i]).data_b64@,
            ) is None) ==> (r matches Err(e) && e is InvalidInput),
        ((forall|i: int|
            0 <= i < request.instructions@.len() ==> b64_decode_of(
                (#[trigger] request.instructions@[i]).data_b64@,
            ) is Some) && !(spec_validate_data(simulator.security_config, request.instructions@)
            is Accept)) ==> (r matches Err(e) && e is Simulation),
        ((forall|i: int|
            0 <= i < request.instructions@.len() ==> b64_decode_of(
                (#[trigger] request.instructions@[i]).data_b64@,
            ) is Some) && spec_validate_data(simulator.security_config, request.instructions@)
            is Accept && spec_data_bundle_keys(request.instructions@, fee_payer.bytes@).len()
            > 255) ==> (r matches Err(e) && e is InvalidInput),
        r matches Ok(run) ==> {
            &&& run.wf()
            &&& run.txs@.len() == 1
            &&& run.results@.len() == 0
            &&& run.phase is NeedSimulation
            &&& run.atomic == request.atomic
            &&& run.retry_attempts == 0
            &&& run.attempt == 0
            &&& run.current == 0
            &&& spec_is_price_ix(run.txs@[0].message, 1)
            &&& vstd::bytes::spec_u64_from_le_bytes(
                run.txs@[0].message.instructions@[1].data@.subrange(1, 9),
            ) == run.price
            &&& run.fee_manager.strategy == fee_manager.strategy
        },
        r matches Err(e) ==> (e is InvalidInput || e is Simulation),
        r matches Err(e) ==> (e is Simulation ==> (e.spec_message()
            == "bundle has too many instructions"@ || e.spec_message()
            == "instruction program is not whitelisted"@ || e.spec_message()
            == "instruction has too many writable accounts"@)),
{
    let instrs = match convert_instructions(&request.instructions) {
        Ok(v) => v,
        Err(e) => {
            return Err(e);
        },
    };
    proof {
        assert(spec_decodes_to(request.instructions@, instrs@));
        lemma_validate_congruent(simulator.security_config, request.instructions@, instrs@);
        lemma_referenced_congruent(request.instructions@, instrs@, fee_payer.bytes@);
    }
    match simulator.validate_instructions(&instrs) {
        Ok(_) => {},
        Err(e) => {
            return Err(e);
        },
    }
    let mut fm = fee_manager;
    let (txs, price, _limit) = match create_transactions(
        instrs,
        &request.compute,
        &mut fm,
        recent_fees,
        now_ms,
        fee_payer,
    ) {
        Ok(t) => t,
        Err(e) => {
            return Err(e);
        },
    };
    Ok(
        BundleRun {
            atomic: request.atomic,
            fee_manager: fm,
            txs,
            current: 0,
            results: Vec::new(),
            phase: TxPhase::NeedSimulation,
            attempt: 0,
            price,
            retry_attempts: 0,
            timers: StageTimers::zero(),
            blockhash: None,
            confirm_elapsed_ms: 0,
            current_sig: None,
            pending_delay: 0,
        },
    )
}

impl BundleRun {
    /// Assembles the bundle's response: the collected results in order, the
    /// aggregate status (failed as soon as any transaction failed), the
    /// first successful signature, the strongest durability seen, and the
    /// metrics block.
    pub fn finish_bundle(
        self,
        request_id: String,
        logs_url: Option<String>,
        rpc_endpoints_used: Vec<String>,
        total_latency_ms: u64,
        completed_at: u64,
    ) -> (r: BundleResponse)
        requires
            self.wf(),
        ensures
            r.request_id@ == request_id@,
            r.status == spec_aggregate_status(self.results@),
            r.transactions@ == self.results@,
            r.slot is None,
            r.blockhash == self.blockhash,
            r.confirmation == spec_aggregate_confirmation(self.results@),
            r.completed_at == completed_at,
            r.bundle_signature is Some <==> spec_first_signature(self.results@, 0) is Some,
            spec_first_signature(self.results@, 0) matches Some(i) ==> (
            r.bundle_signature matches Some(s) && self.results@[i].signature matches Some(orig)
                && s@ == orig@),
            r.metrics.total_transactions == self.results@.len(),
            r.metrics.successful_transactions == spec_success_count(self.results@),
            r.metrics.retry_attempts == self.retry_attempts,
            r.metrics.total_latency_ms == total_latency_ms,
            r.metrics.simulation_time_ms == self.timers.simulation_ms,
            r.metrics.signing_time_ms == self.timers.signing_ms,
            r.metrics.submission_time_ms == self.timers.submission_ms,
            r.metrics.confirmation_time_ms == self.timers.confirmation_ms,
    {
        let confirmation = aggregate_confirmation(&self.results);
        let bundle_signature = bundle_signature_of(&self.results);
        let metrics = build_metrics(
            &self.results,
            &self.timers,
            total_latency_ms,
            self.retry_attempts,
            rpc_endpoints_used,
        );
        let status = if metrics.successful_transactions == metrics.total_transactions {
            BundleStatus::Success
        } else {
            BundleStatus::Failed
        };
        BundleResponse {
            request_id,
            status,
            transactions: self.results,
            bundle_signature,
            slot: None,
            blockhash: self.blockhash,
            confirmation,
            logs_url,
            metrics,
            completed_at,
        }
    }
}

/// A bundle begun by `begin_bundle` yields one transaction, and at most one
/// result per transaction, so under any policy that admits bundles at all
/// the response reports no more transactions than the bundle-size ceiling.
pub proof fn lemma_response_within_bundle_size(n_results: int, n_txs: int, max_bundle_size: u32)
    requires
        n_results <= n_txs,
        n_txs <= 1,
        max_bundle_size >= 1,
    ensures
        n_results <= max_bundle_size as int,
{
}

} // verus!
