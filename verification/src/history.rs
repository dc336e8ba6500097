//! The visit history: its records, how a visit changes them, and how they
//! are ranked.

use vstd::prelude::*;
use crate::models::Timestamp;

verus! {

/// The nanoseconds of a day.
pub const NANOS_PER_DAY: u64 = 86_400_000_000_000;

/// Reads the clock through `chrono::Utc::now`, and gives the moment as the
/// seconds since the Unix epoch and the nanoseconds into that second. Nothing
/// is promised of the moment: two calls may differ. `Utc::now` takes the
/// system clock to read 1970 or later.
#[verifier::external_body]
pub(crate) fn current_time() -> Timestamp {
    let now = chrono::Utc::now();
    Timestamp { secs: now.timestamp(), nanos: now.timestamp_subsec_nanos() }
}

/// The whole days from `last` to `now`; none where `now` is not after `last`.
pub open spec fn elapsed_days(last: Timestamp, now: Timestamp) -> nat {
    if now.total_nanos() <= last.total_nanos() {
        0
    } else {
        ((now.total_nanos() - last.total_nanos()) / (NANOS_PER_DAY as int)) as nat
    }
}

impl Timestamp {
    /// The present moment.
    pub fn now() -> Timestamp {
        current_time()
    }

    /// Nanoseconds since the Unix epoch.
    pub fn nanos_since_epoch(&self) -> (n: i128)
        ensures
            n == self.total_nanos(),
    {
        (self.secs as i128) * 1_000_000_000 + (self.nanos as i128)
    }

    /// The whole days from `self` to `now`; none where `now` is not after
    /// `self`.
    pub fn days_until(&self, now: Timestamp) -> (days: u64)
        ensures
            days == elapsed_days(*self, now),
    {
        let from = self.nanos_since_epoch();
        let to = now.nanos_since_epoch();
        if to <= from {
            0
        } else {
            let gap: u128 = (to - from) as u128;
            (gap / (NANOS_PER_DAY as u128)) as u64
        }
    }
}

/// A visited directory: how often it was visited, and when first and last.
#[derive(Debug, PartialEq)]
pub struct HistoryEntry {
    pub path: String,
    pub frequency: u32,
    pub last_accessed: Timestamp,
    pub first_accessed: Timestamp,
}

/// What a [`HistoryEntry`] is to contracts.
pub struct HistoryEntryView {
    pub path: Seq<char>,
    pub frequency: u32,
    pub last_accessed: Timestamp,
    pub first_accessed: Timestamp,
}

impl View for HistoryEntry {
    type V = HistoryEntryView;

    open spec fn view(&self) -> HistoryEntryView {
        HistoryEntryView {
            path: self.path@,
            frequency: self.frequency,
            last_accessed: self.last_accessed,
            first_accessed: self.first_accessed,
        }
    }
}

impl DeepView for HistoryEntry {
    type V = HistoryEntryView;

    open spec fn deep_view(&self) -> HistoryEntryView {
        self@
    }
}

impl Clone for HistoryEntry {
    fn clone(&self) -> (copy: Self)
        ensures
            copy@ == self@,
    {
        HistoryEntry {
            path: self.path.clone(),
            frequency: self.frequency,
            last_accessed: self.last_accessed,
            first_accessed: self.first_accessed,
        }
    }
}

/// The entry of a directory visited for the first time at `now`.
pub open spec fn fresh(path: Seq<char>, now: Timestamp) -> HistoryEntryView {
    HistoryEntryView { path, frequency: 1, last_accessed: now, first_accessed: now }
}

/// `entry` after one more visit at `now`. The count stops at the largest
/// number that it can hold.
pub open spec fn touched(entry: HistoryEntryView, now: Timestamp) -> HistoryEntryView {
    HistoryEntryView {
        frequency: if entry.frequency < u32::MAX {
            (entry.frequency + 1) as u32
        } else {
            entry.frequency
        },
        last_accessed: now,
        ..entry
    }
}

/// Ten times the larger of `decay_days` and one: what the weights of
/// [`decay_weight`] are parts of.
pub open spec fn decay_scale(decay_days: nat) -> nat {
    if decay_days == 0 {
        10
    } else {
        10 * decay_days
    }
}

/// The weight of a visit `days` days old, in parts of [`decay_scale`]: the
/// whole where no day has passed, else what is left of the whole after `days`
/// of `decay_days`, and a tenth at least.
pub open spec fn decay_weight(days: nat, decay_days: nat) -> nat {
    let floor = decay_scale(decay_days) / 10;
    if days == 0 {
        decay_scale(decay_days)
    } else if days >= decay_days || 10 * (decay_days - days) < floor {
        floor
    } else {
        (10 * (decay_days - days)) as nat
    }
}

/// The score of an entry visited `frequency` times, last `days` days ago: the
/// visits times the weight, in parts of [`decay_scale`].
pub open spec fn score(frequency: nat, days: nat, decay_days: nat) -> nat {
    frequency * decay_weight(days, decay_days)
}

impl HistoryEntryView {
    /// The score of the entry at `now`.
    pub open spec fn score_at(self, now: Timestamp, decay_days: nat) -> nat {
        score(self.frequency as nat, elapsed_days(self.last_accessed, now), decay_days)
    }
}

/// More visits never lower the score; more days since the last visit never
/// raise it.
pub proof fn lemma_score_monotonic(
    frequency: nat,
    more_visits: nat,
    days: nat,
    more_days: nat,
    decay_days: nat,
)
    requires
        frequency <= more_visits,
        days <= more_days,
    ensures
        score(frequency, days, decay_days) <= score(more_visits, days, decay_days),
        score(frequency, more_days, decay_days) <= score(frequency, days, decay_days),
{
    assert(decay_weight(more_days, decay_days) <= decay_weight(days, decay_days));
    assert(score(frequency, days, decay_days) <= score(more_visits, days, decay_days))
        by (nonlinear_arith)
        requires
            frequency <= more_visits,
            score(frequency, days, decay_days) == frequency * decay_weight(days, decay_days),
            score(more_visits, days, decay_days) == more_visits * decay_weight(days, decay_days),
    ;
    assert(score(frequency, more_days, decay_days) <= score(frequency, days, decay_days))
        by (nonlinear_arith)
        requires
            decay_weight(more_days, decay_days) <= decay_weight(days, decay_days),
            score(frequency, more_days, decay_days) == frequency * decay_weight(
                more_days,
                decay_days,
            ),
            score(frequency, days, decay_days) == frequency * decay_weight(days, decay_days),
    ;
}

impl HistoryEntry {
    /// The entry of a directory visited for the first time at `now`.
    pub fn at(path: String, now: Timestamp) -> (entry: HistoryEntry)
        ensures
            entry@ == fresh(path@, now),
    {
        HistoryEntry { path, frequency: 1, last_accessed: now, first_accessed: now }
    }

    /// The entry of a directory visited for the first time now.
    pub fn new(path: String) -> (entry: HistoryEntry)
        ensures
            entry@.path == path@,
            entry@.frequency == 1,
            entry@.first_accessed == entry@.last_accessed,
    {
        HistoryEntry::at(path, Timestamp::now())
    }

    /// Counts one more visit, at `now`.
    pub fn increment_frequency_at(&mut self, now: Timestamp)
        ensures
            final(self)@ == touched(old(self)@, now),
    {
        if self.frequency < u32::MAX {
            self.frequency = self.frequency + 1;
        }
        self.last_accessed = now;
    }

    /// Counts one more visit, now.
    pub fn increment_frequency(&mut self)
        ensures
            final(self)@ == touched(old(self)@, final(self)@.last_accessed),
    {
        self.increment_frequency_at(Timestamp::now());
    }

    /// The weight of the last visit at `now`, in parts of [`decay_scale`].
    pub fn calculate_time_decay(&self, now: Timestamp, decay_days: u32) -> (weight: u64)
        ensures
            weight == decay_weight(elapsed_days(self.last_accessed, now), decay_days as nat),
    {
        let days = self.last_accessed.days_until(now);
        let scale: u64 = if decay_days == 0 {
            10
        } else {
            10 * (decay_days as u64)
        };
        if days == 0 {
            scale
        } else if days >= decay_days as u64 || 10 * ((decay_days as u64) - days) < scale / 10 {
            scale / 10
        } else {
            10 * ((decay_days as u64) - days)
        }
    }

    /// The score of the entry at `now`: its visits times the weight of the
    /// last one, in parts of [`decay_scale`].
    pub fn calculate_score(&self, now: Timestamp, time_decay_days: u32) -> (value: u128)
        ensures
            value == self@.score_at(now, time_decay_days as nat),
    {
        let weight = self.calculate_time_decay(now, time_decay_days);
        assert((self.frequency as u128) * (weight as u128) <= 0xffff_ffff * 0xa_0000_0000)
            by (nonlinear_arith)
            requires
                self.frequency <= 0xffff_ffff,
                weight <= 0xa_0000_0000,
        ;
        (self.frequency as u128) * (weight as u128)
    }
}

} // verus!
