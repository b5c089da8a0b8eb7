use vstd::prelude::*;
use crate::errors::BundlerError;
use crate::errors::BundlerResult;
use crate::types::RpcEndpoint;

verus! {

/// An endpoint is taken out of rotation after this many failures in a row.
pub const FAILURE_THRESHOLD: u32 = 3;

/// The rolling health record of one endpoint.
#[derive(Debug, Clone)]
pub struct EndpointHealth {
    pub healthy: bool,
    /// Time of the last success, in milliseconds.
    pub last_success: Option<u64>,
    /// Time of the last failure, in milliseconds.
    pub last_failure: Option<u64>,
    pub consecutive_failures: u32,
    /// Rolling mean of the observed latency, in milliseconds.
    pub average_latency_ms: Option<u64>,
}

impl Default for EndpointHealth {
    /// A fresh record: healthy, nothing observed yet.
    fn default() -> (r: EndpointHealth)
        ensures
            r.healthy,
            r.last_success is None,
            r.last_failure is None,
            r.consecutive_failures == 0,
            r.average_latency_ms is None,
    {
        EndpointHealth {
            healthy: true,
            last_success: None,
            last_failure: None,
            consecutive_failures: 0,
            average_latency_ms: None,
        }
    }
}

/// What one observed success does to a health record: the endpoint is
/// healthy again, its failure streak ends, and the rolling latency mean
/// absorbs the sample.
pub open spec fn spec_success_step(h: EndpointHealth, latency_ms: u64, now_ms: u64) -> EndpointHealth {
    EndpointHealth {
        healthy: true,
        last_success: Some(now_ms),
        last_failure: h.last_failure,
        consecutive_failures: 0,
        average_latency_ms: match h.average_latency_ms {
            Some(avg) => Some(((avg + latency_ms) / 2) as u64),
            None => Some(latency_ms),
        },
    }
}

/// What one observed failure does to a health record: the streak grows, and
/// at the third consecutive failure the endpoint stops being healthy.
pub open spec fn spec_failure_step(h: EndpointHealth, now_ms: u64) -> EndpointHealth {
    let cf = if h.consecutive_failures >= 0xffff_ffff {
        0xffff_ffffu32
    } else {
        (h.consecutive_failures + 1) as u32
    };
    EndpointHealth {
        healthy: if cf >= FAILURE_THRESHOLD {
            false
        } else {
            h.healthy
        },
        last_success: h.last_success,
        last_failure: Some(now_ms),
        consecutive_failures: cf,
        average_latency_ms: h.average_latency_ms,
    }
}

/// Three consecutive failures always leave an endpoint unhealthy with a
/// failure streak of at least three, whatever its state before.
pub proof fn lemma_three_strikes(h: EndpointHealth, t1: u64, t2: u64, t3: u64)
    ensures
        !spec_failure_step(spec_failure_step(spec_failure_step(h, t1), t2), t3).healthy,
        spec_failure_step(
            spec_failure_step(spec_failure_step(h, t1), t2),
            t3,
        ).consecutive_failures >= 3,
{
}

/// A success always restores health and clears the failure streak.
pub proof fn lemma_success_restores(h: EndpointHealth, latency_ms: u64, now_ms: u64)
    ensures
        spec_success_step(h, latency_ms, now_ms).healthy,
        spec_success_step(h, latency_ms, now_ms).consecutive_failures == 0,
{
}

/// The weighted, health-scored set of upstream endpoints.
#[derive(Debug, Clone)]
pub struct EndpointPool {
    pub endpoints: Vec<RpcEndpoint>,
    pub health: Vec<EndpointHealth>,
    pub max_retries: u32,
    pub backoff_base_ms: u64,
    pub backoff_max_ms: u64,
}

/// The scan for the best healthy endpoint: walk the prefix up to `i`
/// carrying the best index seen; a healthy endpoint with strictly greater
/// weight displaces it, so equal weights keep the earliest.
pub open spec fn spec_scan_healthy(
    eps: Seq<RpcEndpoint>,
    h: Seq<EndpointHealth>,
    i: int,
    best: Option<int>,
) -> Option<int>
    decreases eps.len() - i,
{
    if i < 0 || i >= eps.len() {
        best
    } else {
        let better = match best {
            None => h[i].healthy,
            Some(b) => h[i].healthy && eps[i].weight > eps[b].weight,
        };
        spec_scan_healthy(
            eps,
            h,
            i + 1,
            if better {
                Some(i)
            } else {
                best
            },
        )
    }
}

/// The fallback scan over all endpoints: the greatest weight wins, equal
/// weights keep the latest.
pub open spec fn spec_scan_any(eps: Seq<RpcEndpoint>, i: int, best: int) -> int
    decreases eps.len() - i,
{
    if i < 0 || i >= eps.len() {
        best
    } else {
        spec_scan_any(
            eps,
            i + 1,
            if eps[i].weight >= eps[best].weight {
                i
            } else {
                best
            },
        )
    }
}

/// Which endpoint `get_best_endpoint` picks: the best healthy endpoint, or,
/// when none is healthy, the highest-weight endpoint overall.
pub open spec fn spec_pick_best(eps: Seq<RpcEndpoint>, h: Seq<EndpointHealth>) -> int {
    match spec_scan_healthy(eps, h, 0, None) {
        Some(i) => i,
        None => spec_scan_any(eps, 1, 0),
    }
}

/// The healthy scan yields a healthy endpoint of maximal weight among the
/// healthy ones, and yields nothing only when none is healthy.
pub proof fn lemma_scan_healthy_props(
    eps: Seq<RpcEndpoint>,
    h: Seq<EndpointHealth>,
    i: int,
    best: Option<int>,
)
    requires
        h.len() == eps.len(),
        0 <= i <= eps.len(),
        best matches Some(b) ==> 0 <= b < i && h[b].healthy && forall|j: int|
            0 <= j < i && h[j].healthy ==> eps[j].weight <= eps[b].weight,
        best is None ==> forall|j: int| 0 <= j < i ==> !h[j].healthy,
    ensures
        spec_scan_healthy(eps, h, i, best) matches Some(r) ==> 0 <= r < eps.len() && h[r].healthy
            && forall|j: int|
            0 <= j < eps.len() && h[j].healthy ==> eps[j].weight <= eps[r].weight,
        spec_scan_healthy(eps, h, i, best) is None ==> forall|j: int|
            0 <= j < eps.len() ==> !h[j].healthy,
    decreases eps.len() - i,
{
    if i < eps.len() {
        let better = match best {
            None => h[i].healthy,
            Some(b) => h[i].healthy && eps[i].weight > eps[b].weight,
        };
        let next = if better {
            Some(i)
        } else {
            best
        };
        lemma_scan_healthy_props(eps, h, i + 1, next);
    }
}

/// The fallback scan yields an endpoint of maximal weight overall.
pub proof fn lemma_scan_any_props(eps: Seq<RpcEndpoint>, i: int, best: int)
    requires
        0 <= best < eps.len(),
        0 <= i <= eps.len(),
        forall|j: int| 0 <= j < i ==> eps[j].weight <= eps[best].weight,
    ensures
        0 <= spec_scan_any(eps, i, best) < eps.len(),
        forall|j: int|
            0 <= j < eps.len() ==> (#[trigger] eps[j]).weight <= eps[spec_scan_any(
                eps,
                i,
                best,
            )].weight,
    decreases eps.len() - i,
{
    if i < eps.len() {
        let next = if eps[i].weight >= eps[best].weight {
            i
        } else {
            best
        };
        lemma_scan_any_props(eps, i + 1, next);
    }
}

/// Given the same endpoints and the same health state, `get_best_endpoint`
/// names the same endpoint: its choice is a function of the pool state.
pub proof fn lemma_pick_best_deterministic(
    eps1: Seq<RpcEndpoint>,
    h1: Seq<EndpointHealth>,
    eps2: Seq<RpcEndpoint>,
    h2: Seq<EndpointHealth>,
)
    requires
        eps1 == eps2,
        h1 == h2,
    ensures
        spec_pick_best(eps1, h1) == spec_pick_best(eps2, h2),
{
}

/// With every endpoint unhealthy, the pick still names an endpoint, and one
/// of the highest weight.
pub proof fn lemma_pick_best_all_unhealthy(eps: Seq<RpcEndpoint>, h: Seq<EndpointHealth>)
    requires
        eps.len() > 0,
        h.len() == eps.len(),
        forall|j: int| 0 <= j < h.len() ==> !(#[trigger] h[j]).healthy,
    ensures
        0 <= spec_pick_best(eps, h) < eps.len(),
        forall|j: int|
            0 <= j < eps.len() ==> (#[trigger] eps[j]).weight <= eps[spec_pick_best(eps, h)].weight,
{
    lemma_scan_healthy_props(eps, h, 0, None);
    assert(spec_scan_healthy(eps, h, 0, None) is None) by {
        match spec_scan_healthy(eps, h, 0, None) {
            Some(r) => {
                assert(h[r].healthy);
            },
            None => {},
        }
    }
    lemma_scan_any_props(eps, 1, 0);
}

impl EndpointPool {
    /// The pool keeps one health record per endpoint.
    pub open spec fn wf(&self) -> bool {
        self.health@.len() == self.endpoints@.len()
    }

    /// A fresh pool: every endpoint healthy and unobserved.
    pub fn new(endpoints: Vec<RpcEndpoint>, max_retries: u32, backoff_base_ms: u64, backoff_max_ms: u64) -> (r: EndpointPool)
        ensures
            r.wf(),
            r.endpoints@ == endpoints@,
            r.max_retries == max_retries,
            r.backoff_base_ms == backoff_base_ms,
            r.backoff_max_ms == backoff_max_ms,
            forall|i: int|
                0 <= i < r.health@.len() ==> (#[trigger] r.health@[i]).healthy
                    && r.health@[i].consecutive_failures == 0,
    {
        let n = endpoints.len();
        let mut health: Vec<EndpointHealth> = Vec::new();
        let mut i: usize = 0;
        while i < n
            invariant
                i <= n,
                health@.len() == i,
                forall|j: int|
                    0 <= j < i ==> (#[trigger] health@[j]).healthy && health@[j].consecutive_failures
                        == 0,
            decreases n - i,
        {
            health.push(EndpointHealth::default());
            i = i + 1;
        }
        EndpointPool { endpoints, health, max_retries, backoff_base_ms, backoff_max_ms }
    }

    /// Picks the endpoint to call: the highest-weight healthy endpoint, or,
    /// when every endpoint is unhealthy, the highest-weight endpoint
    /// overall. Fails only on an empty pool.
    pub fn get_best_endpoint(&self) -> (r: BundlerResult<usize>)
        requires
            self.wf(),
        ensures
            r is Ok <==> self.endpoints@.len() > 0,
            r matches Ok(i) ==> i < self.endpoints@.len() && i as int == spec_pick_best(
                self.endpoints@,
                self.health@,
            ),
            r matches Err(e) ==> e is Rpc,
    {
        let n = self.endpoints.len();
        if n == 0 {
            return Err(BundlerError::Rpc("no RPC endpoints configured".to_owned()));
        }
        let mut best: usize = 0;
        let mut have: bool = false;
        let mut i: usize = 0;
        while i < n
            invariant
                self.wf(),
                n == self.endpoints@.len(),
                i <= n,
                have ==> best < i,
                spec_scan_healthy(
                    self.endpoints@,
                    self.health@,
                    i as int,
                    if have {
                        Some(best as int)
                    } else {
                        None
                    },
                ) == spec_scan_healthy(self.endpoints@, self.health@, 0, None),
            decreases n - i,
        {
            let better: bool = if !have {
                self.health[i].healthy
            } else {
                self.health[i].healthy && self.endpoints[i].weight > self.endpoints[best].weight
            };
            if better {
                best = i;
                have = true;
            }
            i = i + 1;
        }
        if have {
            return Ok(best);
        }
        let mut fb: usize = 0;
        let mut i: usize = 1;
        while i < n
            invariant
                n == self.endpoints@.len(),
                1 <= i <= n,
                fb < i,
                spec_scan_any(self.endpoints@, i as int, fb as int) == spec_scan_any(
                    self.endpoints@,
                    1,
                    0,
                ),
            decreases n - i,
        {
            if self.endpoints[i].weight >= self.endpoints[fb].weight {
                fb = i;
            }
            i = i + 1;
        }
        Ok(fb)
    }

    /// Records a successful call against endpoint `i`: healthy again, streak
    /// cleared, latency absorbed into the rolling mean.
    pub fn record_success(&mut self, i: usize, latency_ms: u64, now_ms: u64)
        requires
            old(self).wf(),
            i < old(self).health@.len(),
        ensures
            final(self).wf(),
            final(self).endpoints == old(self).endpoints,
            final(self).max_retries == old(self).max_retries,
            final(self).backoff_base_ms == old(self).backoff_base_ms,
            final(self).backoff_max_ms == old(self).backoff_max_ms,
            final(self).health@.len() == old(self).health@.len(),
            final(self).health@[i as int] == spec_success_step(
                old(self).health@[i as int],
                latency_ms,
                now_ms,
            ),
            forall|j: int|
                0 <= j < old(self).health@.len() && j != i ==> final(self).health@[j] == old(
                    self,
                ).health@[j],
    {
        let prev_failure = self.health[i].last_failure;
        let avg = match self.health[i].average_latency_ms {
            Some(avg) => {
                let half: u64 = ((avg as u128 + latency_ms as u128) / 2) as u64;
                Some(half)
            },
            None => Some(latency_ms),
        };
        let updated = EndpointHealth {
            healthy: true,
            last_success: Some(now_ms),
            last_failure: prev_failure,
            consecutive_failures: 0,
            average_latency_ms: avg,
        };
        self.health.set(i, updated);
    }

    /// Records a failed call against endpoint `i`: the streak grows, and at
    /// the third consecutive failure the endpoint stops being healthy.
    pub fn record_failure(&mut self, i: usize, now_ms: u64)
        requires
            old(self).wf(),
            i < old(self).health@.len(),
        ensures
            final(self).wf(),
            final(self).endpoints == old(self).endpoints,
            final(self).max_retries == old(self).max_retries,
            final(self).backoff_base_ms == old(self).backoff_base_ms,
            final(self).backoff_max_ms == old(self).backoff_max_ms,
            final(self).health@.len() == old(self).health@.len(),
            final(self).health@[i as int] == spec_failure_step(
                old(self).health@[i as int],
                now_ms,
            ),
            forall|j: int|
                0 <= j < old(self).health@.len() && j != i ==> final(self).health@[j] == old(
                    self,
                ).health@[j],
            old(self).health@[i as int].consecutive_failures >= 2 ==> !final(self).health@[
                i as int
            ].healthy,
    {
        let h = &self.health[i];
        let cf: u32 = if h.consecutive_failures >= 0xffff_ffff {
            0xffff_ffff
        } else {
            h.consecutive_failures + 1
        };
        let updated = EndpointHealth {
            healthy: if cf >= FAILURE_THRESHOLD {
                false
            } else {
                h.healthy
            },
            last_success: h.last_success,
            last_failure: Some(now_ms),
            consecutive_failures: cf,
            average_latency_ms: h.average_latency_ms,
        };
        self.health.set(i, updated);
    }

    /// Applies a health sweep: one probe outcome per endpoint, a latency for
    /// a passed probe, nothing for a failed one. Outcomes past the pool's
    /// size are discarded.
    pub fn apply_probe_results(&mut self, results: &Vec<Option<u64>>, now_ms: u64)
        requires
            old(self).wf(),
        ensures
            final(self).wf(),
            final(self).endpoints == old(self).endpoints,
            final(self).health@.len() == old(self).health@.len(),
            forall|j: int|
                0 <= j < old(self).health@.len() ==> final(self).health@[j] == (if j
                    < results@.len() {
                    match results@[j] {
                        Some(latency) => spec_success_step(old(self).health@[j], latency, now_ms),
                        None => spec_failure_step(old(self).health@[j], now_ms),
                    }
                } else {
                    old(self).health@[j]
                }),
    {
        let n = self.health.len();
        let m = results.len();
        let bound = if m < n {
            m
        } else {
            n
        };
        let ghost h0 = self.health@;
        let mut i: usize = 0;
        while i < bound
            invariant
                self.wf(),
                bound <= n,
                n == self.health@.len(),
                h0.len() == n,
                bound <= results@.len(),
                self.endpoints == old(self).endpoints,
                self.max_retries == old(self).max_retries,
                self.backoff_base_ms == old(self).backoff_base_ms,
                self.backoff_max_ms == old(self).backoff_max_ms,
                h0 == old(self).health@,
                i <= bound,
                forall|j: int|
                    0 <= j < i ==> self.health@[j] == (match results@[j] {
                        Some(latency) => spec_success_step(h0[j], latency, now_ms),
                        None => spec_failure_step(h0[j], now_ms),
                    }),
                forall|j: int| i <= j < n ==> self.health@[j] == h0[j],
            decreases bound - i,
        {
            match results[i] {
                Some(latency) => {
                    self.record_success(i, latency, now_ms);
                },
                None => {
                    self.record_failure(i, now_ms);
                },
            }
            i = i + 1;
        }
    }

    /// One health record per endpoint, as currently tracked.
    pub fn get_health_status(&self) -> (r: &Vec<EndpointHealth>)
        ensures
            r == &self.health,
    {
        &self.health
    }

    /// Whether another attempt is allowed after `attempts_done` attempts:
    /// the pool tries at most `max_retries + 1` times.
    pub fn should_retry(&self, attempts_done: u32) -> (r: bool)
        ensures
            r == (attempts_done <= self.max_retries),
    {
        attempts_done <= self.max_retries
    }
}

/// The nominal backoff before attempt `attempt`: the base delay, doubled
/// for each attempt after the first, capped at the maximum.
pub open spec fn spec_nominal_backoff(base_ms: u64, max_ms: u64, attempt: u32) -> u64
    decreases attempt,
{
    if attempt <= 1 {
        base_ms
    } else {
        let prev = spec_nominal_backoff(base_ms, max_ms, (attempt - 1) as u32) as int;
        if prev * 2 > max_ms {
            max_ms
        } else {
            (prev * 2) as u64
        }
    }
}

/// The jittered delay: the nominal delay shifted by up to a quarter either
/// way, the shift drawn from `rand_word`.
pub open spec fn spec_jittered_backoff(nominal: u64, rand_word: u64) -> u64 {
    let quarter = nominal as int / 4;
    let delay = nominal - quarter + (rand_word as int % (2 * quarter + 1));
    if delay > u64::MAX {
        u64::MAX
    } else {
        delay as u64
    }
}

/// The jittered delay stays within a quarter of the nominal delay.
pub proof fn lemma_jitter_bounds(nominal: u64, rand_word: u64)
    ensures
        nominal - nominal / 4 <= spec_jittered_backoff(nominal, rand_word) as int,
        spec_jittered_backoff(nominal, rand_word) as int <= nominal + nominal / 4,
{
}

/// Relies on rand::random: one word drawn from the thread's generator.
/// Nothing is promised of its value.
#[verifier::external_body]
fn random_u64() -> u64 {
    rand::random::<u64>()
}

/// The delay before retry `attempt`, in milliseconds: exponential from the
/// base, capped at the maximum, with up to a quarter of random jitter
/// either way.
pub fn calculate_backoff(base_ms: u64, max_ms: u64, attempt: u32) -> (r: u64)
    ensures
        ({
            let nominal = spec_nominal_backoff(base_ms, max_ms, attempt);
            nominal - nominal / 4 <= r as int <= nominal + nominal / 4
        }),
{
    let mut nominal: u64 = base_ms;
    let mut k: u32 = 1;
    while k < attempt
        invariant
            1 <= k,
            attempt >= 1 ==> k <= attempt,
            attempt < 1 ==> k == 1,
            nominal == spec_nominal_backoff(base_ms, max_ms, k),
        decreases attempt - k,
    {
        let doubled: u128 = (nominal as u128) * 2;
        nominal = if doubled > max_ms as u128 {
            max_ms
        } else {
            doubled as u64
        };
        k = k + 1;
    }
    proof {
        if attempt <= 1 {
            assert(nominal == spec_nominal_backoff(base_ms, max_ms, attempt));
        }
    }
    let word = random_u64();
    let quarter: u64 = nominal / 4;
    let span: u64 = 2 * quarter + 1;
    let delay: u128 = (nominal - quarter) as u128 + (word % span) as u128;
    let r: u64 = if delay > u64::MAX as u128 {
        u64::MAX
    } else {
        delay as u64
    };
    proof {
        lemma_jitter_bounds(nominal, word);
    }
    r
}

} // verus!
