//! Client diagnostics switch and simulation-tick cost recorder. Tick
//! durations (microseconds) go into a ring of the last 128 ticks; a tick over
//! 80 ms is an anomaly, and while anomalies keep occurring a summary of the
//! recent ticks is due at most every 30 s.

use vstd::prelude::*;

verus! {

broadcast use {vstd::seq_lib::to_multiset_insert, vstd::seq_lib::to_multiset_build};

/// Ticks kept in the ring.
pub const CAP: usize = 128;
/// A tick costing more than this many microseconds is an anomaly.
pub const TICK_WARN_US: u64 = 80_000;
/// Seconds between summaries.
pub const SUMMARY_SECS: u64 = 30;

/// Diagnostics state: the verbose-logging switch and the tick recorder.
pub struct Diag {
    pub enabled: bool,
    /// Last tick durations; a zero slot holds no tick yet.
    pub ring: Vec<u64>,
    /// Ticks recorded so far (wrapping); the next slot is `idx % CAP`.
    pub idx: usize,
    /// Anomalies recorded so far (wrapping).
    pub anomalies: usize,
    /// When the last summary was due, 0 before the first.
    pub last_summary_ms: u64,
}

/// The periodic summary of recent ticks.
#[derive(Clone, Copy, Debug, PartialEq, Eq, Structural)]
pub struct PerfSummary {
    pub min_us: u64,
    pub p95_us: u64,
    pub max_us: u64,
    pub anomalies: usize,
}

/// A tick was recorded (a zero slot is empty).
pub open spec fn recorded(us: u64) -> bool {
    us > 0
}

/// The recorded ticks of a ring, in ring order.
pub open spec fn ticks(ring: Seq<u64>) -> Seq<u64> {
    ring.filter(|us: u64| recorded(us))
}

/// Ascending order.
pub open spec fn ascending(s: Seq<u64>) -> bool {
    forall|i: int, j: int| 0 <= i <= j < s.len() ==> s[i] <= s[j]
}

/// Index of the 95th percentile in an ascending sequence of `n > 0` values:
/// the smallest index covering 95% of the values.
pub open spec fn p95_index(n: nat) -> int {
    (n * 95 + 99) / 100 - 1
}

/// `r` is `(min, p95, max)` of the recorded ticks of `ring`: the first,
/// 95th-percentile and last of them in ascending order, all zero when none
/// is recorded.
pub open spec fn percentiles_of(ring: Seq<u64>, r: (u64, u64, u64)) -> bool {
    let n = ticks(ring).len();
    &&& n == 0 ==> r == (0u64, 0u64, 0u64)
    &&& n > 0 ==> exists|s: Seq<u64>|
        #![trigger s.to_multiset()]
        ascending(s) && s.to_multiset() == ticks(ring).to_multiset() && r == (s[0], s[p95_index(n)], s[n - 1])
}

impl Diag {
    /// The ring has its fixed size.
    pub open spec fn wf(&self) -> bool {
        self.ring@.len() == CAP
    }

    /// Diagnostics off, nothing recorded.
    pub fn new() -> (d: Self)
        ensures
            d.wf(),
            !d.enabled,
            forall|i: int| 0 <= i < CAP ==> d.ring@[i] == 0,
            d.idx == 0 && d.anomalies == 0 && d.last_summary_ms == 0,
    {
        let mut ring: Vec<u64> = Vec::new();
        let mut i: usize = 0;
        while i < CAP
            invariant
                i <= CAP,
                ring@.len() == i,
                forall|j: int| 0 <= j < i ==> ring@[j] == 0,
            decreases CAP - i,
        {
            ring.push(0);
            i = i + 1;
        }
        Diag { enabled: false, ring, idx: 0, anomalies: 0, last_summary_ms: 0 }
    }
}

/// Switches verbose diagnostics logging on or off.
pub fn init_enabled(d: &mut Diag, on: bool)
    ensures
        final(d).enabled == on,
        final(d).ring@ == old(d).ring@,
        final(d).idx == old(d).idx,
        final(d).anomalies == old(d).anomalies,
        final(d).last_summary_ms == old(d).last_summary_ms,
{
    d.enabled = on;
}

/// Whether verbose diagnostics logging is on.
pub fn enabled(d: &Diag) -> (r: bool)
    ensures
        r == d.enabled,
{
    d.enabled
}

/// Records one tick duration in the next ring slot. Returns the duration
/// when the tick was an anomaly, which is then counted.
pub fn record_tick(d: &mut Diag, duration_us: u64) -> (r: Option<u64>)
    requires
        old(d).wf(),
    ensures
        final(d).wf(),
        final(d).ring@ == old(d).ring@.update((old(d).idx % CAP) as int, duration_us),
        final(d).idx == (if old(d).idx == usize::MAX { 0 } else { old(d).idx + 1 }),
        duration_us > TICK_WARN_US ==> r == Some(duration_us) && final(d).anomalies == (if old(
            d,
        ).anomalies == usize::MAX {
            0
        } else {
            old(d).anomalies + 1
        }),
        duration_us <= TICK_WARN_US ==> r is None && final(d).anomalies == old(d).anomalies,
        final(d).enabled == old(d).enabled,
        final(d).last_summary_ms == old(d).last_summary_ms,
{
    let i = d.idx % CAP;
    d.idx = d.idx.wrapping_add(1);
    d.ring.set(i, duration_us);
    if duration_us > TICK_WARN_US {
        d.anomalies = d.anomalies.wrapping_add(1);
        Some(duration_us)
    } else {
        None
    }
}

/// The recorded ticks of the ring in ascending order.
pub fn snapshot_sorted(d: &Diag) -> (v: Vec<u64>)
    requires
        d.wf(),
    ensures
        ascending(v@),
        v@.to_multiset() == ticks(d.ring@).to_multiset(),
{
    let mut v: Vec<u64> = Vec::new();
    let mut i: usize = 0;
    assert(ticks(d.ring@.take(0)) =~= Seq::<u64>::empty());
    assert(v@ =~= Seq::<u64>::empty());
    while i < d.ring.len()
        invariant
            i <= d.ring@.len(),
            ascending(v@),
            v@.to_multiset() == ticks(d.ring@.take(i as int)).to_multiset(),
        decreases d.ring@.len() - i,
    {
        let us = d.ring[i];
        proof {
            assert(d.ring@.take(i + 1) =~= d.ring@.take(i as int).push(us));
            d.ring@.take(i as int).lemma_filter_push(us, |x: u64| recorded(x));
        }
        if us > 0 {
            let mut j: usize = 0;
            while j < v.len() && v[j] <= us
                invariant
                    j <= v@.len(),
                    forall|k: int| 0 <= k < j ==> v@[k] <= us,
                decreases v@.len() - j,
            {
                j = j + 1;
            }
            let ghost before = v@;
            v.insert(j, us);
            proof {
                assert(v@ == before.insert(j as int, us));
                assert forall|a: int, b: int| 0 <= a <= b < v@.len() implies v@[a] <= v@[b] by {
                    if a < j as int && b > j as int {
                        assert(v@[a] == before[a]);
                        assert(v@[b] == before[b - 1]);
                    } else if b < j as int {
                        assert(v@[a] == before[a]);
                        assert(v@[b] == before[b]);
                    } else if a > j as int {
                        assert(v@[a] == before[a - 1]);
                        assert(v@[b] == before[b - 1]);
                    } else if a == j as int && b > j as int {
                        assert(v@[b] == before[b - 1]);
                        assert(j < before.len());
                        assert(before[j as int] > us);
                    } else if b == j as int && a < j as int {
                        assert(v@[a] == before[a]);
                    }
                }
            }
        }
        i = i + 1;
    }
    assert(d.ring@.take(d.ring@.len() as int) =~= d.ring@);
    v
}

/// `(min, p95, max)` of the recorded ticks, all zero when none is recorded:
/// the first, 95th-percentile and last of them in ascending order.
pub fn percentiles_recent(d: &Diag) -> (r: (u64, u64, u64))
    requires
        d.wf(),
    ensures
        percentiles_of(d.ring@, r),
{
    let v = snapshot_sorted(d);
    proof {
        v@.to_multiset_ensures();
        ticks(d.ring@).to_multiset_ensures();
    }
    let n = v.len();
    if n == 0 {
        return (0, 0, 0);
    }
    let k = (n * 95 + 99) / 100 - 1;
    assert(v@.len() == ticks(d.ring@).len());
    assert(0 <= k < n) by (nonlinear_arith)
        requires
            k == (n * 95 + 99) / 100 - 1,
            n >= 1,
            n <= CAP,
    ;
    (v[0], v[k], v[n - 1])
}

/// When anomalies occurred and no summary was due in the last 30 s (or none
/// ever), a summary is due now: returns it and records `now_ms`.
pub fn maybe_summary(d: &mut Diag, now_ms: u64) -> (r: Option<PerfSummary>)
    requires
        old(d).wf(),
    ensures
        final(d).wf(),
        final(d).ring@ == old(d).ring@,
        final(d).idx == old(d).idx,
        final(d).anomalies == old(d).anomalies,
        final(d).enabled == old(d).enabled,
        ({
            let last = old(d).last_summary_ms;
            let due = old(d).anomalies != 0 && (last == 0 || (if now_ms >= last {
                now_ms - last
            } else {
                0
            }) >= SUMMARY_SECS * 1000);
            &&& !due ==> r is None && final(d).last_summary_ms == last
            &&& due ==> final(d).last_summary_ms == now_ms && (r matches Some(s) && s.anomalies
                == old(d).anomalies && percentiles_of(old(d).ring@, (s.min_us, s.p95_us, s.max_us)))
        }),
{
    if d.anomalies == 0 {
        return None;
    }
    let last = d.last_summary_ms;
    if last != 0 && now_ms.saturating_sub(last) < SUMMARY_SECS * 1000 {
        return None;
    }
    d.last_summary_ms = now_ms;
    let (min_us, p95_us, max_us) = percentiles_recent(d);
    Some(PerfSummary { min_us, p95_us, max_us, anomalies: d.anomalies })
}

} // verus!
