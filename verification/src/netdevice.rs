//! Network-device metrics: the per-device block, the device registry,
//! and the flush that rolls every device's delta into a class aggregate.
//!
//! Each device owns one [`NetDeviceMetrics`] block.  Blocks live in a
//! [`NetDeviceMetricsAlloc`] registry keyed by the device identity; a
//! registration handle is the block's stable position in the registry.
//! [`flush_metrics`] emits one entry of per-flush deltas for every device
//! plus one aggregate entry that preserves the legacy combined view.

use vstd::prelude::*;

use crate::metrics::IncMetric;
use crate::metrics::SharedIncMetric;
use crate::metrics::counter_added;
use crate::metrics::counter_delta;
use crate::metrics::counter_flushed;
use crate::metrics::counter_zero;
use vstd::string::StringExecFns;

verus! {

/// Network-related metrics for one device instance.
pub struct NetDeviceMetrics {
    /// Number of times when activate failed on a network device.
    pub activate_fails: SharedIncMetric,
    /// Number of times when interacting with the space config of a network device failed.
    pub cfg_fails: SharedIncMetric,
    /// Number of times the mac address was updated through the config space.
    pub mac_address_updates: SharedIncMetric,
    /// No available buffer for the net device rx queue.
    pub no_rx_avail_buffer: SharedIncMetric,
    /// No available buffer for the net device tx queue.
    pub no_tx_avail_buffer: SharedIncMetric,
    /// Number of times when handling events on a network device failed.
    pub event_fails: SharedIncMetric,
    /// Number of events associated with the receiving queue.
    pub rx_queue_event_count: SharedIncMetric,
    /// Number of events associated with the rate limiter installed on the receiving path.
    pub rx_event_rate_limiter_count: SharedIncMetric,
    /// Number of RX partial writes to guest.
    pub rx_partial_writes: SharedIncMetric,
    /// Number of RX rate limiter throttling events.
    pub rx_rate_limiter_throttled: SharedIncMetric,
    /// Number of events received on the associated tap.
    pub rx_tap_event_count: SharedIncMetric,
    /// Number of bytes received.
    pub rx_bytes_count: SharedIncMetric,
    /// Number of packets received.
    pub rx_packets_count: SharedIncMetric,
    /// Number of errors while receiving data.
    pub rx_fails: SharedIncMetric,
    /// Number of successful read operations while receiving data.
    pub rx_count: SharedIncMetric,
    /// Number of times reading from TAP failed.
    pub tap_read_fails: SharedIncMetric,
    /// Number of times writing to TAP failed.
    pub tap_write_fails: SharedIncMetric,
    /// Number of transmitted bytes.
    pub tx_bytes_count: SharedIncMetric,
    /// Number of malformed TX frames.
    pub tx_malformed_frames: SharedIncMetric,
    /// Number of errors while transmitting data.
    pub tx_fails: SharedIncMetric,
    /// Number of successful write operations while transmitting data.
    pub tx_count: SharedIncMetric,
    /// Number of transmitted packets.
    pub tx_packets_count: SharedIncMetric,
    /// Number of TX partial reads from guest.
    pub tx_partial_reads: SharedIncMetric,
    /// Number of events associated with the transmitting queue.
    pub tx_queue_event_count: SharedIncMetric,
    /// Number of events associated with the rate limiter installed on the transmitting path.
    pub tx_rate_limiter_event_count: SharedIncMetric,
    /// Number of TX rate limiter throttling events.
    pub tx_rate_limiter_throttled: SharedIncMetric,
    /// Number of packets with a spoofed mac, sent by the guest.
    pub tx_spoofed_mac_count: SharedIncMetric,
}

/// The per-flush deltas emitted for one block: one unsigned value per
/// counter, each the activity since the previous flush.
pub struct NetDeviceDeltas {
    /// Delta emitted for `activate_fails`.
    pub activate_fails: u64,
    /// Delta emitted for `cfg_fails`.
    pub cfg_fails: u64,
    /// Delta emitted for `mac_address_updates`.
    pub mac_address_updates: u64,
    /// Delta emitted for `no_rx_avail_buffer`.
    pub no_rx_avail_buffer: u64,
    /// Delta emitted for `no_tx_avail_buffer`.
    pub no_tx_avail_buffer: u64,
    /// Delta emitted for `event_fails`.
    pub event_fails: u64,
    /// Delta emitted for `rx_queue_event_count`.
    pub rx_queue_event_count: u64,
    /// Delta emitted for `rx_event_rate_limiter_count`.
    pub rx_event_rate_limiter_count: u64,
    /// Delta emitted for `rx_partial_writes`.
    pub rx_partial_writes: u64,
    /// Delta emitted for `rx_rate_limiter_throttled`.
    pub rx_rate_limiter_throttled: u64,
    /// Delta emitted for `rx_tap_event_count`.
    pub rx_tap_event_count: u64,
    /// Delta emitted for `rx_bytes_count`.
    pub rx_bytes_count: u64,
    /// Delta emitted for `rx_packets_count`.
    pub rx_packets_count: u64,
    /// Delta emitted for `rx_fails`.
    pub rx_fails: u64,
    /// Delta emitted for `rx_count`.
    pub rx_count: u64,
    /// Delta emitted for `tap_read_fails`.
    pub tap_read_fails: u64,
    /// Delta emitted for `tap_write_fails`.
    pub tap_write_fails: u64,
    /// Delta emitted for `tx_bytes_count`.
    pub tx_bytes_count: u64,
    /// Delta emitted for `tx_malformed_frames`.
    pub tx_malformed_frames: u64,
    /// Delta emitted for `tx_fails`.
    pub tx_fails: u64,
    /// Delta emitted for `tx_count`.
    pub tx_count: u64,
    /// Delta emitted for `tx_packets_count`.
    pub tx_packets_count: u64,
    /// Delta emitted for `tx_partial_reads`.
    pub tx_partial_reads: u64,
    /// Delta emitted for `tx_queue_event_count`.
    pub tx_queue_event_count: u64,
    /// Delta emitted for `tx_rate_limiter_event_count`.
    pub tx_rate_limiter_event_count: u64,
    /// Delta emitted for `tx_rate_limiter_throttled`.
    pub tx_rate_limiter_throttled: u64,
    /// Delta emitted for `tx_spoofed_mac_count`.
    pub tx_spoofed_mac_count: u64,
}

/// The all-zero block every device starts from.
pub open spec fn block_zero() -> NetDeviceMetrics {
    NetDeviceMetrics {
        activate_fails: counter_zero(),
        cfg_fails: counter_zero(),
        mac_address_updates: counter_zero(),
        no_rx_avail_buffer: counter_zero(),
        no_tx_avail_buffer: counter_zero(),
        event_fails: counter_zero(),
        rx_queue_event_count: counter_zero(),
        rx_event_rate_limiter_count: counter_zero(),
        rx_partial_writes: counter_zero(),
        rx_rate_limiter_throttled: counter_zero(),
        rx_tap_event_count: counter_zero(),
        rx_bytes_count: counter_zero(),
        rx_packets_count: counter_zero(),
        rx_fails: counter_zero(),
        rx_count: counter_zero(),
        tap_read_fails: counter_zero(),
        tap_write_fails: counter_zero(),
        tx_bytes_count: counter_zero(),
        tx_malformed_frames: counter_zero(),
        tx_fails: counter_zero(),
        tx_count: counter_zero(),
        tx_packets_count: counter_zero(),
        tx_partial_reads: counter_zero(),
        tx_queue_event_count: counter_zero(),
        tx_rate_limiter_event_count: counter_zero(),
        tx_rate_limiter_throttled: counter_zero(),
        tx_spoofed_mac_count: counter_zero(),
    }
}

/// `t` after folding in `o`'s un-flushed deltas: every counter of `t` grows
/// by the corresponding delta of `o`; `o` itself is not changed by this.
pub open spec fn block_aggregated(t: NetDeviceMetrics, o: NetDeviceMetrics) -> NetDeviceMetrics {
    NetDeviceMetrics {
        activate_fails: counter_added(t.activate_fails, counter_delta(o.activate_fails)),
        cfg_fails: counter_added(t.cfg_fails, counter_delta(o.cfg_fails)),
        mac_address_updates: counter_added(t.mac_address_updates, counter_delta(o.mac_address_updates)),
        no_rx_avail_buffer: counter_added(t.no_rx_avail_buffer, counter_delta(o.no_rx_avail_buffer)),
        no_tx_avail_buffer: counter_added(t.no_tx_avail_buffer, counter_delta(o.no_tx_avail_buffer)),
        event_fails: counter_added(t.event_fails, counter_delta(o.event_fails)),
        rx_queue_event_count: counter_added(t.rx_queue_event_count, counter_delta(o.rx_queue_event_count)),
        rx_event_rate_limiter_count: counter_added(t.rx_event_rate_limiter_count, counter_delta(o.rx_event_rate_limiter_count)),
        rx_partial_writes: counter_added(t.rx_partial_writes, counter_delta(o.rx_partial_writes)),
        rx_rate_limiter_throttled: counter_added(t.rx_rate_limiter_throttled, counter_delta(o.rx_rate_limiter_throttled)),
        rx_tap_event_count: counter_added(t.rx_tap_event_count, counter_delta(o.rx_tap_event_count)),
        rx_bytes_count: counter_added(t.rx_bytes_count, counter_delta(o.rx_bytes_count)),
        rx_packets_count: counter_added(t.rx_packets_count, counter_delta(o.rx_packets_count)),
        rx_fails: counter_added(t.rx_fails, counter_delta(o.rx_fails)),
        rx_count: counter_added(t.rx_count, counter_delta(o.rx_count)),
        tap_read_fails: counter_added(t.tap_read_fails, counter_delta(o.tap_read_fails)),
        tap_write_fails: counter_added(t.tap_write_fails, counter_delta(o.tap_write_fails)),
        tx_bytes_count: counter_added(t.tx_bytes_count, counter_delta(o.tx_bytes_count)),
        tx_malformed_frames: counter_added(t.tx_malformed_frames, counter_delta(o.tx_malformed_frames)),
        tx_fails: counter_added(t.tx_fails, counter_delta(o.tx_fails)),
        tx_count: counter_added(t.tx_count, counter_delta(o.tx_count)),
        tx_packets_count: counter_added(t.tx_packets_count, counter_delta(o.tx_packets_count)),
        tx_partial_reads: counter_added(t.tx_partial_reads, counter_delta(o.tx_partial_reads)),
        tx_queue_event_count: counter_added(t.tx_queue_event_count, counter_delta(o.tx_queue_event_count)),
        tx_rate_limiter_event_count: counter_added(t.tx_rate_limiter_event_count, counter_delta(o.tx_rate_limiter_event_count)),
        tx_rate_limiter_throttled: counter_added(t.tx_rate_limiter_throttled, counter_delta(o.tx_rate_limiter_throttled)),
        tx_spoofed_mac_count: counter_added(t.tx_spoofed_mac_count, counter_delta(o.tx_spoofed_mac_count)),
    }
}

/// The deltas a flush of `b` emits.
pub open spec fn block_deltas(b: NetDeviceMetrics) -> NetDeviceDeltas {
    NetDeviceDeltas {
        activate_fails: counter_delta(b.activate_fails),
        cfg_fails: counter_delta(b.cfg_fails),
        mac_address_updates: counter_delta(b.mac_address_updates),
        no_rx_avail_buffer: counter_delta(b.no_rx_avail_buffer),
        no_tx_avail_buffer: counter_delta(b.no_tx_avail_buffer),
        event_fails: counter_delta(b.event_fails),
        rx_queue_event_count: counter_delta(b.rx_queue_event_count),
        rx_event_rate_limiter_count: counter_delta(b.rx_event_rate_limiter_count),
        rx_partial_writes: counter_delta(b.rx_partial_writes),
        rx_rate_limiter_throttled: counter_delta(b.rx_rate_limiter_throttled),
        rx_tap_event_count: counter_delta(b.rx_tap_event_count),
        rx_bytes_count: counter_delta(b.rx_bytes_count),
        rx_packets_count: counter_delta(b.rx_packets_count),
        rx_fails: counter_delta(b.rx_fails),
        rx_count: counter_delta(b.rx_count),
        tap_read_fails: counter_delta(b.tap_read_fails),
        tap_write_fails: counter_delta(b.tap_write_fails),
        tx_bytes_count: counter_delta(b.tx_bytes_count),
        tx_malformed_frames: counter_delta(b.tx_malformed_frames),
        tx_fails: counter_delta(b.tx_fails),
        tx_count: counter_delta(b.tx_count),
        tx_packets_count: counter_delta(b.tx_packets_count),
        tx_partial_reads: counter_delta(b.tx_partial_reads),
        tx_queue_event_count: counter_delta(b.tx_queue_event_count),
        tx_rate_limiter_event_count: counter_delta(b.tx_rate_limiter_event_count),
        tx_rate_limiter_throttled: counter_delta(b.tx_rate_limiter_throttled),
        tx_spoofed_mac_count: counter_delta(b.tx_spoofed_mac_count),
    }
}

/// `b` after a flush: every baseline has caught up with its counter.
pub open spec fn block_flushed(b: NetDeviceMetrics) -> NetDeviceMetrics {
    NetDeviceMetrics {
        activate_fails: counter_flushed(b.activate_fails),
        cfg_fails: counter_flushed(b.cfg_fails),
        mac_address_updates: counter_flushed(b.mac_address_updates),
        no_rx_avail_buffer: counter_flushed(b.no_rx_avail_buffer),
        no_tx_avail_buffer: counter_flushed(b.no_tx_avail_buffer),
        event_fails: counter_flushed(b.event_fails),
        rx_queue_event_count: counter_flushed(b.rx_queue_event_count),
        rx_event_rate_limiter_count: counter_flushed(b.rx_event_rate_limiter_count),
        rx_partial_writes: counter_flushed(b.rx_partial_writes),
        rx_rate_limiter_throttled: counter_flushed(b.rx_rate_limiter_throttled),
        rx_tap_event_count: counter_flushed(b.rx_tap_event_count),
        rx_bytes_count: counter_flushed(b.rx_bytes_count),
        rx_packets_count: counter_flushed(b.rx_packets_count),
        rx_fails: counter_flushed(b.rx_fails),
        rx_count: counter_flushed(b.rx_count),
        tap_read_fails: counter_flushed(b.tap_read_fails),
        tap_write_fails: counter_flushed(b.tap_write_fails),
        tx_bytes_count: counter_flushed(b.tx_bytes_count),
        tx_malformed_frames: counter_flushed(b.tx_malformed_frames),
        tx_fails: counter_flushed(b.tx_fails),
        tx_count: counter_flushed(b.tx_count),
        tx_packets_count: counter_flushed(b.tx_packets_count),
        tx_partial_reads: counter_flushed(b.tx_partial_reads),
        tx_queue_event_count: counter_flushed(b.tx_queue_event_count),
        tx_rate_limiter_event_count: counter_flushed(b.tx_rate_limiter_event_count),
        tx_rate_limiter_throttled: counter_flushed(b.tx_rate_limiter_throttled),
        tx_spoofed_mac_count: counter_flushed(b.tx_spoofed_mac_count),
    }
}

/// The class total for a flush cycle: a fresh block with every device's
/// deltas folded in, in registry order.
pub open spec fn block_total(blocks: Seq<NetDeviceMetrics>) -> NetDeviceMetrics
    decreases blocks.len(),
{
    if blocks.len() == 0 {
        block_zero()
    } else {
        block_aggregated(block_total(blocks.drop_last()), blocks.last())
    }
}

/// The counters of a block, in declaration order.
pub open spec fn block_fields(b: NetDeviceMetrics) -> Seq<SharedIncMetric> {
    seq![
        b.activate_fails,
        b.cfg_fails,
        b.mac_address_updates,
        b.no_rx_avail_buffer,
        b.no_tx_avail_buffer,
        b.event_fails,
        b.rx_queue_event_count,
        b.rx_event_rate_limiter_count,
        b.rx_partial_writes,
        b.rx_rate_limiter_throttled,
        b.rx_tap_event_count,
        b.rx_bytes_count,
        b.rx_packets_count,
        b.rx_fails,
        b.rx_count,
        b.tap_read_fails,
        b.tap_write_fails,
        b.tx_bytes_count,
        b.tx_malformed_frames,
        b.tx_fails,
        b.tx_count,
        b.tx_packets_count,
        b.tx_partial_reads,
        b.tx_queue_event_count,
        b.tx_rate_limiter_event_count,
        b.tx_rate_limiter_throttled,
        b.tx_spoofed_mac_count,
    ]
}

impl NetDeviceMetrics {
    /// All-zero construction.
    pub fn new() -> (r: Self)
        ensures
            r == block_zero(),
    {
        NetDeviceMetrics {
            activate_fails: SharedIncMetric::new(),
            cfg_fails: SharedIncMetric::new(),
            mac_address_updates: SharedIncMetric::new(),
            no_rx_avail_buffer: SharedIncMetric::new(),
            no_tx_avail_buffer: SharedIncMetric::new(),
            event_fails: SharedIncMetric::new(),
            rx_queue_event_count: SharedIncMetric::new(),
            rx_event_rate_limiter_count: SharedIncMetric::new(),
            rx_partial_writes: SharedIncMetric::new(),
            rx_rate_limiter_throttled: SharedIncMetric::new(),
            rx_tap_event_count: SharedIncMetric::new(),
            rx_bytes_count: SharedIncMetric::new(),
            rx_packets_count: SharedIncMetric::new(),
            rx_fails: SharedIncMetric::new(),
            rx_count: SharedIncMetric::new(),
            tap_read_fails: SharedIncMetric::new(),
            tap_write_fails: SharedIncMetric::new(),
            tx_bytes_count: SharedIncMetric::new(),
            tx_malformed_frames: SharedIncMetric::new(),
            tx_fails: SharedIncMetric::new(),
            tx_count: SharedIncMetric::new(),
            tx_packets_count: SharedIncMetric::new(),
            tx_partial_reads: SharedIncMetric::new(),
            tx_queue_event_count: SharedIncMetric::new(),
            tx_rate_limiter_event_count: SharedIncMetric::new(),
            tx_rate_limiter_throttled: SharedIncMetric::new(),
            tx_spoofed_mac_count: SharedIncMetric::new(),
        }
    }

    /// Folds `other`'s un-flushed deltas into `self`.
    ///
    /// Every counter grows by `other`'s `fetch_diff`, which does not reset
    /// `other`: the device's own flush moves its baseline separately, so the
    /// same delta is aggregated exactly once here and still reported under
    /// the device's own entry in the same cycle.
    pub fn aggregate(&mut self, other: &Self)
        ensures
            *final(self) == block_aggregated(*old(self), *other),
    {
        self.activate_fails.add(other.activate_fails.fetch_diff());
        self.cfg_fails.add(other.cfg_fails.fetch_diff());
        self.mac_address_updates.add(other.mac_address_updates.fetch_diff());
        self.no_rx_avail_buffer.add(other.no_rx_avail_buffer.fetch_diff());
        self.no_tx_avail_buffer.add(other.no_tx_avail_buffer.fetch_diff());
        self.event_fails.add(other.event_fails.fetch_diff());
        self.rx_queue_event_count.add(other.rx_queue_event_count.fetch_diff());
        self.rx_event_rate_limiter_count.add(other.rx_event_rate_limiter_count.fetch_diff());
        self.rx_partial_writes.add(other.rx_partial_writes.fetch_diff());
        self.rx_rate_limiter_throttled.add(other.rx_rate_limiter_throttled.fetch_diff());
        self.rx_tap_event_count.add(other.rx_tap_event_count.fetch_diff());
        self.rx_bytes_count.add(other.rx_bytes_count.fetch_diff());
        self.rx_packets_count.add(other.rx_packets_count.fetch_diff());
        self.rx_fails.add(other.rx_fails.fetch_diff());
        self.rx_count.add(other.rx_count.fetch_diff());
        self.tap_read_fails.add(other.tap_read_fails.fetch_diff());
        self.tap_write_fails.add(other.tap_write_fails.fetch_diff());
        self.tx_bytes_count.add(other.tx_bytes_count.fetch_diff());
        self.tx_malformed_frames.add(other.tx_malformed_frames.fetch_diff());
        self.tx_fails.add(other.tx_fails.fetch_diff());
        self.tx_count.add(other.tx_count.fetch_diff());
        self.tx_packets_count.add(other.tx_packets_count.fetch_diff());
        self.tx_partial_reads.add(other.tx_partial_reads.fetch_diff());
        self.tx_queue_event_count.add(other.tx_queue_event_count.fetch_diff());
        self.tx_rate_limiter_event_count.add(other.tx_rate_limiter_event_count.fetch_diff());
        self.tx_rate_limiter_throttled.add(other.tx_rate_limiter_throttled.fetch_diff());
        self.tx_spoofed_mac_count.add(other.tx_spoofed_mac_count.fetch_diff());
    }

    /// Emit-and-reset for the whole block: returns every counter's delta
    /// since the previous flush and records the new baselines.
    pub fn flush(&mut self) -> (d: NetDeviceDeltas)
        ensures
            d == block_deltas(*old(self)),
            *final(self) == block_flushed(*old(self)),
    {
        NetDeviceDeltas {
            activate_fails: self.activate_fails.flush(),
            cfg_fails: self.cfg_fails.flush(),
            mac_address_updates: self.mac_address_updates.flush(),
            no_rx_avail_buffer: self.no_rx_avail_buffer.flush(),
            no_tx_avail_buffer: self.no_tx_avail_buffer.flush(),
            event_fails: self.event_fails.flush(),
            rx_queue_event_count: self.rx_queue_event_count.flush(),
            rx_event_rate_limiter_count: self.rx_event_rate_limiter_count.flush(),
            rx_partial_writes: self.rx_partial_writes.flush(),
            rx_rate_limiter_throttled: self.rx_rate_limiter_throttled.flush(),
            rx_tap_event_count: self.rx_tap_event_count.flush(),
            rx_bytes_count: self.rx_bytes_count.flush(),
            rx_packets_count: self.rx_packets_count.flush(),
            rx_fails: self.rx_fails.flush(),
            rx_count: self.rx_count.flush(),
            tap_read_fails: self.tap_read_fails.flush(),
            tap_write_fails: self.tap_write_fails.flush(),
            tx_bytes_count: self.tx_bytes_count.flush(),
            tx_malformed_frames: self.tx_malformed_frames.flush(),
            tx_fails: self.tx_fails.flush(),
            tx_count: self.tx_count.flush(),
            tx_packets_count: self.tx_packets_count.flush(),
            tx_partial_reads: self.tx_partial_reads.flush(),
            tx_queue_event_count: self.tx_queue_event_count.flush(),
            tx_rate_limiter_event_count: self.tx_rate_limiter_event_count.flush(),
            tx_rate_limiter_throttled: self.tx_rate_limiter_throttled.flush(),
            tx_spoofed_mac_count: self.tx_spoofed_mac_count.flush(),
        }
    }
}

impl Default for NetDeviceMetrics {
    /// All-zero construction.
    fn default() -> (r: Self)
        ensures
            r == block_zero(),
    {
        NetDeviceMetrics::new()
    }
}

/// Provides access to the per-device metrics blocks of the net class.
///
/// The registry grows monotonically: a block, once registered, keeps its
/// position for the lifetime of the device, so a position is a stable
/// handle.  Identities are unique: [`NetDeviceMetricsAlloc::wf`] is
/// established by the constructor and preserved by every method.
pub struct NetDeviceMetricsAlloc {
    /// The registered devices: identity and owned metrics block, in
    /// registration order.
    pub metrics: Vec<(String, NetDeviceMetrics)>,
}

impl NetDeviceMetricsAlloc {
    /// Well-formedness: no two registered devices share an identity.
    pub open spec fn wf(&self) -> bool {
        forall|i: int, j: int|
            0 <= i < j < self.metrics@.len() ==> self.metrics@[i].0@ != self.metrics@[j].0@
    }

    /// Whether some device with identity `id` is registered.
    pub open spec fn contains_id(&self, id: Seq<char>) -> bool {
        exists|i: int| 0 <= i < self.metrics@.len() && self.metrics@[i].0@ == id
    }

    /// Empty registry.
    pub fn new() -> (r: Self)
        ensures
            r.metrics@.len() == 0,
            r.wf(),
    {
        NetDeviceMetricsAlloc { metrics: Vec::new() }
    }

    /// Registers `iface_id`, lazily and idempotently: an unknown identity
    /// gets a fresh all-zero block appended; a known identity changes
    /// nothing.  Either way the returned handle is the position of the one
    /// block owned by `iface_id`.
    pub fn register(&mut self, iface_id: String) -> (idx: usize)
        requires
            old(self).wf(),
        ensures
            final(self).wf(),
            idx < final(self).metrics@.len(),
            final(self).metrics@[idx as int].0@ == iface_id@,
            old(self).contains_id(iface_id@) ==> *final(self) == *old(self),
            !old(self).contains_id(iface_id@) ==> {
                &&& final(self).metrics@.len() == old(self).metrics@.len() + 1
                &&& idx == old(self).metrics@.len()
                &&& forall|i: int|
                    0 <= i < old(self).metrics@.len() ==> final(self).metrics@[i]
                        == old(self).metrics@[i]
                &&& final(self).metrics@[idx as int].0 == iface_id
                &&& final(self).metrics@[idx as int].1 == block_zero()
            },
    {
        let n = self.metrics.len();
        let mut i: usize = 0;
        while i < n
            invariant
                i <= n,
                n == self.metrics@.len(),
                *self == *old(self),
                self.wf(),
                forall|k: int| 0 <= k < i ==> self.metrics@[k].0@ != iface_id@,
            decreases n - i,
        {
            if self.metrics[i].0 == iface_id {
                return i;
            }
            i += 1;
        }
        self.metrics.push((iface_id, NetDeviceMetrics::new()));
        n
    }

    /// Looks an identity up without creating it: the position of its block,
    /// or `None` when no such device is registered.
    pub fn get(&self, iface_id: &String) -> (r: Option<usize>)
        ensures
            match r {
                Some(idx) => idx < self.metrics@.len() && self.metrics@[idx as int].0@
                    == iface_id@,
                None => !self.contains_id(iface_id@),
            },
    {
        let n = self.metrics.len();
        let mut i: usize = 0;
        while i < n
            invariant
                i <= n,
                n == self.metrics@.len(),
                forall|k: int| 0 <= k < i ==> self.metrics@[k].0@ != iface_id@,
            decreases n - i,
        {
            if self.metrics[i].0 == *iface_id {
                return Some(i);
            }
            i += 1;
        }
        None
    }
}

/// Identities are unique in a well-formed registry, so two registrations of
/// the same identity hand out the same position — and through equal
/// positions, the same underlying block.
pub proof fn lemma_register_idempotent(r: NetDeviceMetricsAlloc, i: int, j: int)
    requires
        r.wf(),
        0 <= i < r.metrics@.len(),
        0 <= j < r.metrics@.len(),
        r.metrics@[i].0@ == r.metrics@[j].0@,
    ensures
        i == j,
{
}

/// Folding two devices into a fresh total block puts, in every field, the
/// sum of the two devices' deltas.  Stated for every field position and
/// every pair of blocks whose deltas sum within `u64`.
pub proof fn lemma_aggregate_two_devices(a: NetDeviceMetrics, b: NetDeviceMetrics, i: int)
    requires
        0 <= i < block_fields(a).len(),
        counter_delta(block_fields(a)[i]) + counter_delta(block_fields(b)[i]) <= u64::MAX,
    ensures
        block_fields(block_aggregated(block_aggregated(block_zero(), a), b))[i].current
            == counter_delta(block_fields(a)[i]) + counter_delta(block_fields(b)[i]),
{
}

/// The (wrapping) sum of one field's per-flush deltas over a sequence of
/// blocks, for the field at position `i` of the block.
pub open spec fn delta_fold(blocks: Seq<NetDeviceMetrics>, i: int) -> u64
    decreases blocks.len(),
{
    if blocks.len() == 0 {
        0
    } else {
        delta_fold(blocks.drop_last(), i).wrapping_add(
            counter_delta(block_fields(blocks.last())[i]),
        )
    }
}

/// The class total of a flush cycle reports, in every field, exactly the
/// sum of the devices' deltas for that cycle: no device's activity is
/// dropped and none is counted twice.
pub proof fn lemma_total_collects_every_delta(blocks: Seq<NetDeviceMetrics>, i: int)
    requires
        0 <= i < block_fields(block_zero()).len(),
    ensures
        counter_delta(block_fields(block_total(blocks))[i]) == delta_fold(blocks, i),
        block_fields(block_total(blocks))[i].baseline == 0,
    decreases blocks.len(),
{
    if blocks.len() > 0 {
        lemma_total_collects_every_delta(blocks.drop_last(), i);
        let t = block_total(blocks.drop_last());
        let o = blocks.last();
        assert(block_fields(block_aggregated(t, o))[i] == counter_added(
            block_fields(t)[i],
            counter_delta(block_fields(o)[i]),
        ));
    }
}

/// The blocks of a sequence of registry entries, in registration order.
pub open spec fn entry_blocks(s: Seq<(String, NetDeviceMetrics)>) -> Seq<NetDeviceMetrics> {
    s.map_values(|e: (String, NetDeviceMetrics)| e.1)
}

/// What one flush cycle over the registry guarantees, for registry entries
/// `s0` before the cycle, `s1` after it, and emitted entries `out`: one
/// `("net_" + identity, deltas)` entry per device in registration order,
/// one final `("net", deltas)` entry holding the class total folded from
/// every device's deltas, and every device flushed exactly once.
pub open spec fn flush_cycle_ok(
    s0: Seq<(String, NetDeviceMetrics)>,
    s1: Seq<(String, NetDeviceMetrics)>,
    out: Seq<(String, NetDeviceDeltas)>,
) -> bool {
    &&& out.len() == s0.len() + 1
    &&& s1.len() == s0.len()
    &&& (forall|i: int|
        0 <= i < s0.len() ==> {
            &&& out[i].0@ == "net_"@ + s0[i].0@
            &&& out[i].1 == block_deltas(s0[i].1)
            &&& s1[i].0 == s0[i].0
            &&& s1[i].1 == block_flushed(s0[i].1)
        })
    &&& out.last().0@ == "net"@
    &&& out.last().1 == block_deltas(block_total(entry_blocks(s0)))
}

/// One flush cycle over the whole registry.
///
/// Emits, in registration order, one `("net_" + identity, deltas)` entry per
/// device, followed by one `("net", deltas)` entry for the class total: a
/// fresh block with every device's delta folded in.  Every device's deltas
/// and the total are computed from the same pre-flush counters, and every
/// device's baseline is reset exactly once.
pub fn flush_metrics(registry: &mut NetDeviceMetricsAlloc) -> (out: Vec<(String, NetDeviceDeltas)>)
    ensures
        flush_cycle_ok(old(registry).metrics@, final(registry).metrics@, out@),
        old(registry).wf() ==> final(registry).wf(),
{
    let ghost s0 = registry.metrics@;
    let ghost b0 = entry_blocks(registry.metrics@);
    let mut out: Vec<(String, NetDeviceDeltas)> = Vec::new();
    let mut total = NetDeviceMetrics::new();
    let n = registry.metrics.len();
    let mut i: usize = 0;
    while i < n
        invariant
            i <= n,
            n == s0.len(),
            b0.len() == s0.len(),
            forall|k: int| 0 <= k < s0.len() ==> b0[k] == s0[k].1,
            registry.metrics@.len() == s0.len(),
            forall|k: int| i <= k < s0.len() ==> registry.metrics@[k] == s0[k],
            forall|k: int|
                0 <= k < i ==> registry.metrics@[k].0 == s0[k].0 && registry.metrics@[k].1
                    == block_flushed(s0[k].1),
            out@.len() == i,
            forall|k: int|
                0 <= k < i ==> out@[k].0@ == "net_"@ + s0[k].0@ && out@[k].1
                    == block_deltas(s0[k].1),
            total == block_total(b0.take(i as int)),
        decreases n - i,
    {
        let entry = &mut registry.metrics[i];
        let mut name: String = "net_".to_owned();
        name.append(entry.0.as_str());
        total.aggregate(&entry.1);
        let d = entry.1.flush();
        out.push((name, d));
        proof {
            assert(b0.take(i + 1).drop_last() =~= b0.take(i as int));
        }
        i += 1;
    }
    proof {
        assert(b0.take(n as int) =~= b0);
        if old(registry).wf() {
            assert forall|i: int, j: int|
                0 <= i < j < registry.metrics@.len() implies registry.metrics@[i].0@
                != registry.metrics@[j].0@ by {
                assert(registry.metrics@[i].0 == s0[i].0);
                assert(registry.metrics@[j].0 == s0[j].0);
            }
        }
    }
    let td = total.flush();
    out.push(("net".to_owned(), td));
    out
}

/// A network device: its identity and the stable handle of its metrics
/// block in the registry it was created in.
pub struct Net {
    /// The device identity (the interface name).
    pub id: String,
    /// Position of the device's block in the registry.
    pub metrics: usize,
}

impl Net {
    /// Creates the device, registering its metrics block on first use.
    pub fn new(registry: &mut NetDeviceMetricsAlloc, id: String) -> (net: Net)
        requires
            old(registry).wf(),
        ensures
            final(registry).wf(),
            net.id == id,
            net.metrics < final(registry).metrics@.len(),
            final(registry).metrics@[net.metrics as int].0@ == id@,
            old(registry).contains_id(id@) ==> *final(registry) == *old(registry),
            !old(registry).contains_id(id@) ==> final(registry).metrics@.len()
                == old(registry).metrics@.len() + 1 && final(registry).metrics@[net.metrics as int].1
                == block_zero(),
    {
        let metrics = registry.register(id.clone());
        Net { id, metrics }
    }
}

} // verus!
