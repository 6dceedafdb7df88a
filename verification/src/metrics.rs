//! Counter and gauge primitives, the snapshot sink state, and clock helpers.
//!
//! A [`SharedIncMetric`] keeps two unsigned 64-bit cells: `current`, which
//! only ever accumulates, and `baseline`, the value recorded at the previous
//! flush.  Flushing emits `current - baseline` and moves the baseline up, so
//! each flush reports exactly the activity since the previous one.  A
//! [`SharedStoreMetric`] is a plain absolute-value indicator that a flush
//! never resets.  All arithmetic wraps, so no operation here can panic.

use vstd::prelude::*;

use crate::netdevice::NetDeviceDeltas;
use crate::netdevice::NetDeviceMetricsAlloc;
use crate::netdevice::flush_cycle_ok;
use crate::netdevice::flush_metrics;

verus! {

/// A resettable accumulator: `current` grows with every `add`, `baseline`
/// remembers the value at the previous flush.
#[derive(Debug)]
pub struct SharedIncMetric {
    /// Monotonically accumulated count (wrapping on overflow).
    pub current: u64,
    /// Value of `current` recorded at the previous flush.
    pub baseline: u64,
}

/// A persistent absolute-value indicator; flushing never resets it.
#[derive(Debug)]
pub struct SharedStoreMetric {
    /// The stored value.
    pub value: u64,
}

/// The zero-valued counter every metric starts from.
pub open spec fn counter_zero() -> SharedIncMetric {
    SharedIncMetric { current: 0, baseline: 0 }
}

/// The counter after one addition of `v`: `current` grows (wrapping),
/// the baseline is untouched.
pub open spec fn counter_added(c: SharedIncMetric, v: u64) -> SharedIncMetric {
    SharedIncMetric { current: c.current.wrapping_add(v), baseline: c.baseline }
}

/// The counter after a whole sequence of additions, first to last.
pub open spec fn counter_after_adds(c: SharedIncMetric, vs: Seq<u64>) -> SharedIncMetric
    decreases vs.len(),
{
    if vs.len() == 0 {
        c
    } else {
        counter_added(counter_after_adds(c, vs.drop_last()), vs.last())
    }
}

/// The delta a flush of `c` emits: activity since the previous flush.
pub open spec fn counter_delta(c: SharedIncMetric) -> u64 {
    c.current.wrapping_sub(c.baseline)
}

/// The counter after a flush: the baseline has caught up with `current`.
pub open spec fn counter_flushed(c: SharedIncMetric) -> SharedIncMetric {
    SharedIncMetric { current: c.current, baseline: c.current }
}

/// Exact (unwrapped) sum of a sequence of added values.
pub open spec fn sum_of(vs: Seq<u64>) -> int
    decreases vs.len(),
{
    if vs.len() == 0 {
        0
    } else {
        sum_of(vs.drop_last()) + vs.last()
    }
}

/// Counter interface: continuously updated by incrementing.
pub trait IncMetric {
    /// Accumulated count as seen in contracts.
    spec fn metric_current(&self) -> u64;

    /// Baseline recorded at the previous flush, as seen in contracts.
    spec fn metric_baseline(&self) -> u64;

    /// Adds `value` to the current counter (wrapping).
    fn add(&mut self, value: u64)
        ensures
            final(self).metric_current() == old(self).metric_current().wrapping_add(value),
            final(self).metric_baseline() == old(self).metric_baseline(),
    ;

    /// Increments the current counter by 1 unit.
    fn inc(&mut self)
        ensures
            final(self).metric_current() == old(self).metric_current().wrapping_add(1),
            final(self).metric_baseline() == old(self).metric_baseline(),
    {
        self.add(1);
    }

    /// Returns the current value of the counter.
    fn count(&self) -> (r: u64)
        ensures
            r == self.metric_current(),
    ;

    /// Returns the difference between the current and the baseline value
    /// without resetting anything.
    fn fetch_diff(&self) -> (r: u64)
        ensures
            r == self.metric_current().wrapping_sub(self.metric_baseline()),
    ;
}

/// Gauge interface: a persistent indicator that is stored and fetched.
pub trait StoreMetric {
    /// Stored value as seen in contracts.
    spec fn metric_value(&self) -> u64;

    /// Returns the current value of the gauge.
    fn fetch(&self) -> (r: u64)
        ensures
            r == self.metric_value(),
    ;

    /// Stores `value` into the gauge.
    fn store(&mut self, value: u64)
        ensures
            final(self).metric_value() == value,
    ;
}

impl SharedIncMetric {
    /// Zero-valued construction.
    pub fn new() -> (r: Self)
        ensures
            r == counter_zero(),
    {
        SharedIncMetric { current: 0, baseline: 0 }
    }

    /// Emit-and-reset: returns the delta since the previous flush and
    /// records the snapshot as the new baseline.
    pub fn flush(&mut self) -> (delta: u64)
        ensures
            delta == counter_delta(*old(self)),
            *final(self) == counter_flushed(*old(self)),
    {
        let snapshot = self.current;
        let delta = snapshot.wrapping_sub(self.baseline);
        self.baseline = snapshot;
        delta
    }
}

impl Default for SharedIncMetric {
    /// Zero-valued construction.
    fn default() -> (r: Self)
        ensures
            r == counter_zero(),
    {
        SharedIncMetric { current: 0, baseline: 0 }
    }
}

impl IncMetric for SharedIncMetric {
    open spec fn metric_current(&self) -> u64 {
        self.current
    }

    open spec fn metric_baseline(&self) -> u64 {
        self.baseline
    }

    fn add(&mut self, value: u64) {
        self.current = self.current.wrapping_add(value);
    }

    fn count(&self) -> u64 {
        self.current
    }

    fn fetch_diff(&self) -> u64 {
        self.current.wrapping_sub(self.baseline)
    }
}

impl SharedStoreMetric {
    /// Zero-valued construction.
    pub fn new() -> (r: Self)
        ensures
            r.value == 0,
    {
        SharedStoreMetric { value: 0 }
    }
}

impl Default for SharedStoreMetric {
    /// Zero-valued construction.
    fn default() -> (r: Self)
        ensures
            r.value == 0,
    {
        SharedStoreMetric { value: 0 }
    }
}

impl StoreMetric for SharedStoreMetric {
    open spec fn metric_value(&self) -> u64 {
        self.value
    }

    fn fetch(&self) -> u64 {
        self.value
    }

    fn store(&mut self, value: u64) {
        self.value = value;
    }
}

/// The sum of added values is never negative.
proof fn lemma_sum_of_nonneg(vs: Seq<u64>)
    ensures
        sum_of(vs) >= 0,
    decreases vs.len(),
{
    if vs.len() > 0 {
        lemma_sum_of_nonneg(vs.drop_last());
    }
}

/// After any sequence of additions with no intervening flush, the counter
/// holds its starting value plus the sum of all added values, and the
/// baseline is untouched — so `count` returns exactly that sum when the
/// counter started from zero.  Stated for sums that stay within `u64`.
pub proof fn lemma_count_after_adds(c: SharedIncMetric, vs: Seq<u64>)
    requires
        c.current + sum_of(vs) <= u64::MAX,
    ensures
        counter_after_adds(c, vs).current == c.current + sum_of(vs),
        counter_after_adds(c, vs).baseline == c.baseline,
    decreases vs.len(),
{
    if vs.len() > 0 {
        lemma_sum_of_nonneg(vs.drop_last());
        lemma_count_after_adds(c, vs.drop_last());
    }
}

/// The first flush after a total of `sum_of(vs)` has been added to a fresh
/// counter emits exactly that total: the baseline starts at zero.
pub proof fn lemma_first_flush_reports_total(vs: Seq<u64>)
    requires
        sum_of(vs) <= u64::MAX,
    ensures
        counter_delta(counter_after_adds(counter_zero(), vs)) == sum_of(vs),
{
    lemma_sum_of_nonneg(vs);
    lemma_count_after_adds(counter_zero(), vs);
}

/// Two flushes in a row with no increments in between: the second one
/// always emits zero, whatever the counter held.
pub proof fn lemma_second_flush_is_zero(c: SharedIncMetric)
    ensures
        counter_delta(counter_flushed(c)) == 0,
{
}

/// Relies on `std::io::Error` as the opaque carrier of a destination write
/// failure; nothing about its contents is assumed.
#[verifier::external_type_specification]
#[verifier::external_body]
pub struct ExIoError(std::io::Error);

/// Describes the errors which may occur while handling metrics scenarios.
#[derive(Debug)]
pub enum MetricsError {
    /// First attempt at initialization failed.
    NeverInitialized(String),
    /// The metrics system does not allow reinitialization.
    AlreadyInitialized,
    /// Error in the serialization of the metrics instance.
    Serde(String),
    /// Writing to the specified buffer failed.
    Write(std::io::Error),
}

/// Marker for the spot in the serialized tree where the per-device and
/// aggregate net entries are flattened in; it carries no state of its own.
#[derive(Debug)]
pub struct NetDeviceMetricsDummmy {}

impl NetDeviceMetricsDummmy {
    /// Default construction.
    pub fn new() -> Self {
        Self {}
    }
}

impl Default for NetDeviceMetricsDummmy {
    /// Default construction.
    fn default() -> Self {
        Self {}
    }
}

/// Marker for the timestamp entry of the serialized tree: the wall-clock
/// milliseconds are read at flush time and passed into [`Metrics::write`].
#[derive(Debug)]
pub struct SerializeToUtcTimestampMs {}

impl SerializeToUtcTimestampMs {
    /// Default construction.
    pub fn new() -> Self {
        SerializeToUtcTimestampMs {}
    }
}

impl Default for SerializeToUtcTimestampMs {
    /// Default construction.
    fn default() -> Self {
        SerializeToUtcTimestampMs {}
    }
}

/// Structure storing all metrics of the application.
#[derive(Debug)]
pub struct FirecrackerMetrics {
    /// Timestamp entry, filled at flush time.
    pub utc_timestamp_ms: SerializeToUtcTimestampMs,
    /// Spot where the net-device entries are flattened in.
    pub net: NetDeviceMetricsDummmy,
}

impl FirecrackerMetrics {
    /// Default construction.
    pub fn new() -> Self {
        Self {
            utc_timestamp_ms: SerializeToUtcTimestampMs::new(),
            net: NetDeviceMetricsDummmy::new(),
        }
    }
}

impl Default for FirecrackerMetrics {
    /// Default construction.
    fn default() -> Self {
        FirecrackerMetrics::new()
    }
}

/// One serialized snapshot: the flush-time timestamp and, in registration
/// order, one entry of deltas per device followed by the class aggregate.
pub struct MetricsSnapshot {
    /// Wall-clock milliseconds at the time of the flush.
    pub utc_timestamp_ms: i64,
    /// `("net_" + identity, deltas)` per device, then `("net", deltas)` for
    /// the class total.
    pub entries: Vec<(String, NetDeviceDeltas)>,
}

/// Metrics system: the state of the snapshot sink.
///
/// The destination itself (a file, a pipe) is owned by the surrounding
/// process; this tracks whether one has been attached, so that a flush
/// before initialization is a reported no-op rather than an error.
pub struct Metrics {
    /// Whether a destination has been attached.
    pub initialized: bool,
    /// The application metrics tree written on each flush.
    pub app_metrics: FirecrackerMetrics,
}

impl Metrics {
    /// Creates a new instance of the metrics system, not yet initialized.
    pub fn new(app_metrics: FirecrackerMetrics) -> (m: Metrics)
        ensures
            !m.initialized,
            m.app_metrics == app_metrics,
    {
        Metrics { initialized: false, app_metrics }
    }

    /// Initializes the metrics system (once and only once): the first call
    /// succeeds, every later call fails with `AlreadyInitialized` and has no
    /// effect.
    pub fn init(&mut self) -> (r: Result<(), MetricsError>)
        ensures
            !old(self).initialized ==> r is Ok && final(self).initialized
                && final(self).app_metrics == old(self).app_metrics,
            old(self).initialized ==> (r matches Err(MetricsError::AlreadyInitialized)
                && *final(self) == *old(self)),
    {
        if self.initialized {
            Err(MetricsError::AlreadyInitialized)
        } else {
            self.initialized = true;
            Ok(())
        }
    }

    /// Produces the snapshot of one flush cycle, to be serialized and
    /// written by the owner of the destination.
    ///
    /// If the system is not initialized this returns `None` — explicitly
    /// not an error, so callers may flush speculatively before setup
    /// completes — and leaves every counter untouched.  Otherwise it runs
    /// one flush cycle over the registry and stamps the snapshot with
    /// `now_ms`, the wall-clock milliseconds read by the caller.
    pub fn write(&self, registry: &mut NetDeviceMetricsAlloc, now_ms: i64) -> (r: Option<
        MetricsSnapshot,
    >)
        ensures
            !self.initialized ==> r is None && *final(registry) == *old(registry),
            self.initialized ==> (r matches Some(snap) && snap.utc_timestamp_ms == now_ms
                && flush_cycle_ok(old(registry).metrics@, final(registry).metrics@, snap.entries@)
                && (old(registry).wf() ==> final(registry).wf())),
    {
        if self.initialized {
            let entries = flush_metrics(registry);
            Some(MetricsSnapshot { utc_timestamp_ms: now_ms, entries })
        } else {
            None
        }
    }
}

/// Clock kinds of the host, mirrored as plain values; reading one is the
/// surrounding process's job.
#[derive(Clone, Copy, Debug)]
pub enum ClockType {
    /// A clock that never goes backwards.
    Monotonic,
    /// The wall-clock time.
    Real,
    /// CPU time consumed by this process.
    ProcessCpu,
    /// CPU time consumed by this thread.
    ThreadCpu,
}

/// Nanoseconds in one second.
pub const NANOS_PER_SECOND: u64 = 1_000_000_000;

/// Converts a second count to nanoseconds; `None` where the product does
/// not fit in an `i64`.
pub fn seconds_to_nanoseconds(value: i64) -> (r: Option<i64>)
    ensures
        i64::MIN <= value * NANOS_PER_SECOND <= i64::MAX ==> r == Some(
            (value * NANOS_PER_SECOND) as i64,
        ),
        !(i64::MIN <= value * NANOS_PER_SECOND <= i64::MAX) ==> r is None,
{
    value.checked_mul(NANOS_PER_SECOND as i64)
}

/// Builds the nanosecond timestamp from what a host clock reads: whole
/// seconds and the in-second nanosecond remainder.  `None` where the
/// seconds do not convert ([`seconds_to_nanoseconds`]) or either part is
/// negative.
pub fn time_ns_from_parts(sec: i64, nsec: i64) -> (r: Option<u64>)
    ensures
        0 <= sec * NANOS_PER_SECOND <= i64::MAX && 0 <= nsec ==> r == Some(
            (sec * NANOS_PER_SECOND + nsec) as u64,
        ),
        !(0 <= sec * NANOS_PER_SECOND <= i64::MAX && 0 <= nsec) ==> r is None,
{
    match seconds_to_nanoseconds(sec) {
        Some(ns) => {
            if ns >= 0 && nsec >= 0 {
                Some((ns as u64) + (nsec as u64))
            } else {
                None
            }
        },
        None => None,
    }
}

/// The millisecond timestamp recorded in a snapshot, from a nanosecond
/// clock reading; `None` where it does not fit in an `i64`.
pub fn utc_millis_from_ns(ns: u64) -> (r: Option<i64>)
    ensures
        ns / 1_000_000 <= i64::MAX ==> r == Some((ns / 1_000_000) as i64),
        ns / 1_000_000 > i64::MAX ==> r is None,
{
    let ms = ns / 1_000_000;
    if ms <= i64::MAX as u64 {
        Some(ms as i64)
    } else {
        None
    }
}

} // verus!
