use crate::config::MonitorConfig;
use crate::filter::accepts;
use crate::filter::decoded_value;
use crate::filter::filter_advertisement;
use crate::filter::recorded_signal;
use crate::filter::Advertisement;
use crate::filter::Reading;
use crate::freshness::classify;
use crate::freshness::Freshness;
use crate::history::push_evict;
use std::collections::VecDeque;
use vstd::prelude::*;

verus! {

/// The single piece of mutable shared state in the core: the current reading,
/// a bounded rolling history of reading values, the time of the last accepted
/// update and a generation counter that drives the notification broadcaster.
/// One ingestion task is the sole writer; readers only ever receive copies,
/// taken by `create_heart_rate_update` under the owner's exclusion.
pub struct HeartRateMonitor {
    pub config: MonitorConfig,
    pub current_rate: u8,
    pub device_name: String,
    pub rssi: i16,
    /// Seconds on the caller's monotonic clock at the last accepted update.
    pub last_update: u64,
    pub history: VecDeque<u8>,
    /// Number of accepted updates so far; strictly increases with each one.
    pub generation: u64,
}

/// A consistent copy of the live state, handed to consumers. All fields stem
/// from one and the same store state: a reader never sees the current value,
/// the history and the freshness verdict of different updates paired up.
pub struct HeartRateUpdate {
    pub heart_rate: u8,
    pub device_name: String,
    pub rssi: i16,
    pub elapsed_secs: u64,
    pub fresh: bool,
    pub history: Vec<u8>,
    pub generation: u64,
}

impl HeartRateMonitor {
    /// Invariant of the live state: the history never outgrows the configured
    /// capacity.
    pub open spec fn wf(self) -> bool {
        self.history@.len() <= self.config.history_capacity
    }

    /// Seconds elapsed at clock value `now` since the last accepted update;
    /// a clock reading from before that update counts as no elapsed time.
    pub open spec fn elapsed_at(self, now: u64) -> int {
        if now >= self.last_update {
            now - self.last_update
        } else {
            0
        }
    }

    /// Whether the last reading is still fresh at clock value `now`: strictly
    /// less than the configured threshold has elapsed.
    pub open spec fn fresh_at(self, now: u64) -> bool {
        self.elapsed_at(now) < self.config.staleness_threshold_secs
    }

    /// Create the live state once at process start, with no reading yet:
    /// value 0, no device name, the weakest possible signal, an empty history
    /// and generation 0.
    pub fn new(config: MonitorConfig, now: u64) -> (monitor: HeartRateMonitor)
        ensures
            monitor.wf(),
            monitor.config == config,
            monitor.current_rate == 0,
            monitor.device_name@ == Seq::<char>::empty(),
            monitor.rssi == i16::MIN,
            monitor.last_update == now,
            monitor.history@ == Seq::<u8>::empty(),
            monitor.generation == 0,
    {
        let capacity = config.history_capacity;
        HeartRateMonitor {
            config,
            current_rate: 0,
            device_name: String::new(),
            rssi: i16::MIN,
            last_update: now,
            history: VecDeque::with_capacity(capacity),
            generation: 0,
        }
    }

    /// Commit an accepted reading: replace the current value, append it to
    /// the history (evicting the oldest entry at capacity), record its
    /// observation time and advance the generation counter by exactly one.
    /// Only the ingestion path calls this.
    pub fn update(&mut self, reading: Reading)
        requires
            old(self).wf(),
            old(self).generation < u64::MAX,
        ensures
            final(self).wf(),
            final(self).config == old(self).config,
            final(self).current_rate == reading.value,
            final(self).device_name@ == reading.device_name@,
            final(self).rssi == reading.signal_strength,
            final(self).last_update == reading.observed_at,
            final(self).history@ == push_evict(
                old(self).history@,
                reading.value,
                old(self).config.history_capacity as nat,
            ),
            final(self).generation == old(self).generation + 1,
    {
        self.current_rate = reading.value;
        self.device_name = reading.device_name;
        self.rssi = reading.signal_strength;
        self.last_update = reading.observed_at;
        self.history.push_back(reading.value);
        if self.history.len() > self.config.history_capacity {
            self.history.pop_front();
        }
        self.generation = self.generation + 1;
    }

    /// Whether the last accepted update is recent at clock value `now`:
    /// strictly less than the configured staleness threshold has elapsed.
    pub fn is_recent(&self, now: u64) -> (recent: bool)
        ensures
            recent == self.fresh_at(now),
    {
        let elapsed_secs: u64 = if now >= self.last_update {
            now - self.last_update
        } else {
            0
        };
        classify(elapsed_secs, self.config.staleness_threshold_secs) == Freshness::Fresh
    }
}

/// Feed one raw advertisement record into the store: validate and decode it
/// against the store's configuration, commit it if and only if it is
/// accepted, and report that decision. A rejected record, whatever its
/// shape, leaves the store untouched: no value, no history entry, no
/// generation change, and no fatal condition.
pub fn ingest(monitor: &mut HeartRateMonitor, adv: &Advertisement, now: u64) -> (accepted: bool)
    requires
        old(monitor).wf(),
        old(monitor).generation < u64::MAX,
    ensures
        final(monitor).wf(),
        final(monitor).config == old(monitor).config,
        accepted == accepts(old(monitor).config, *adv),
        !accepted ==> *final(monitor) == *old(monitor),
        accepted ==> final(monitor).current_rate == decoded_value(*adv),
        accepted ==> final(monitor).device_name@ == adv.device_name->0@,
        accepted ==> final(monitor).rssi == recorded_signal(*adv),
        accepted ==> final(monitor).last_update == now,
        accepted ==> final(monitor).history@ == push_evict(
            old(monitor).history@,
            decoded_value(*adv),
            old(monitor).config.history_capacity as nat,
        ),
        accepted ==> final(monitor).generation == old(monitor).generation + 1,
{
    let decoded = filter_advertisement(&monitor.config, adv, now);
    match decoded {
        Some(reading) => {
            monitor.update(reading);
            true
        },
        None => false,
    }
}

/// Take a consistent, immutable snapshot of the live state at clock value
/// `now`: the current reading, the elapsed seconds, the freshness verdict at
/// that moment, a copy of the whole history in chronological order and the
/// generation the snapshot belongs to.
pub fn create_heart_rate_update(monitor: &HeartRateMonitor, now: u64) -> (snapshot:
    HeartRateUpdate)
    ensures
        snapshot.heart_rate == monitor.current_rate,
        snapshot.device_name@ == monitor.device_name@,
        snapshot.rssi == monitor.rssi,
        snapshot.elapsed_secs == monitor.elapsed_at(now),
        snapshot.fresh == monitor.fresh_at(now),
        snapshot.history@ == monitor.history@,
        snapshot.generation == monitor.generation,
{
    let elapsed_secs: u64 = if now >= monitor.last_update {
        now - monitor.last_update
    } else {
        0
    };
    let fresh = classify(elapsed_secs, monitor.config.staleness_threshold_secs)
        == Freshness::Fresh;
    let mut history: Vec<u8> = Vec::new();
    let mut i: usize = 0;
    while i < monitor.history.len()
        invariant
            i <= monitor.history@.len(),
            history@ == monitor.history@.subrange(0, i as int),
        decreases monitor.history@.len() - i,
    {
        history.push(monitor.history[i]);
        i = i + 1;
    }
    HeartRateUpdate {
        heart_rate: monitor.current_rate,
        device_name: monitor.device_name.clone(),
        rssi: monitor.rssi,
        elapsed_secs,
        fresh,
        history,
        generation: monitor.generation,
    }
}

/// Law: immediately after an accepted update the elapsed time reads zero, at
/// the very clock value the update recorded.
pub proof fn lemma_elapsed_zero_at_update(monitor: HeartRateMonitor)
    ensures
        monitor.elapsed_at(monitor.last_update) == 0,
{
}

/// Law: between two accepted updates the elapsed time strictly increases
/// with the clock, starting from the moment of the last update.
pub proof fn lemma_elapsed_strictly_increases(monitor: HeartRateMonitor, earlier: u64, later: u64)
    requires
        monitor.last_update <= earlier,
        earlier < later,
    ensures
        monitor.elapsed_at(earlier) < monitor.elapsed_at(later),
{
}

}
