//! The hour-indexed ring of buckets and its three operations: advancing to
//! an instant, recording a value, and merging two rings.

use crate::instant::{
    hour_of, is_unset, later_of, representable, whole_hours_between, UtcInstant, HOURS_PER_DAY,
};
use crate::statistic::Statistic;
use std::collections::HashMap;
use vstd::prelude::*;

verus! {

/// Number of buckets: one per hour of the day.
pub const BUCKETS: usize = 24;

/// What a ring of buckets is, mathematically: the 24 bucket values by hour
/// of day, and the instant of the last advance in nanoseconds since the
/// epoch.
#[verifier::ext_equal]
pub struct DayModel<S> {
    pub bins: Seq<S>,
    pub updated_at: int,
}

/// How many hours of day are entered on the way from hour `from` to hour
/// `to` once at least a whole hour has passed, wrapping past 23: the
/// distance from one to the other, and once round short of the start where
/// the two are the same hour.
pub open spec fn hours_stepped(from: int, to: int) -> int {
    if from == to {
        23
    } else {
        (to - from) % 24
    }
}

/// Whether hour `i` is passed over when stepping hour by hour from just
/// after hour `from` up to and including hour `to`, wrapping past 23. The
/// hour `from` itself is never passed over.
pub open spec fn swept(from: int, to: int, i: int) -> bool {
    0 < (i - from) % 24 <= hours_stepped(from, to)
}

/// Twenty-four buckets, each holding the zero.
pub open spec fn empty_bins<S: Statistic>() -> Seq<S> {
    Seq::new(24, |i: int| S::zero_value())
}

/// The bucket-by-bucket combination of two rings.
pub open spec fn combined_bins<S: Statistic>(left: Seq<S>, right: Seq<S>) -> Seq<S> {
    Seq::new(24, |i: int| left[i].combined(right[i]))
}

impl<S: Statistic> DayModel<S> {
    /// The ring after its notion of "now" has been brought up to `t`.
    ///
    /// Less than one whole hour after the last advance, nothing changes.
    /// A day or more after it, every bucket is reset. In between, the
    /// buckets of the hours after the old hour up to the hour of `t` are
    /// reset and the others are kept; where `t` falls in the old hour of
    /// the next day, every bucket but that of the old hour is reset.
    pub open spec fn advanced(self, t: int) -> Self {
        let elapsed = whole_hours_between(t, self.updated_at);
        if elapsed < 1 {
            self
        } else if elapsed >= 24 {
            DayModel { bins: empty_bins::<S>(), updated_at: t }
        } else {
            DayModel {
                bins: Seq::new(
                    24,
                    |i: int|
                        if swept(hour_of(self.updated_at), hour_of(t), i) {
                            S::zero_value()
                        } else {
                            self.bins[i]
                        },
                ),
                updated_at: t,
            }
        }
    }

    /// The ring after `value` has been recorded at instant `now`: advanced
    /// to `now`, then `value` combined into the bucket of that hour.
    pub open spec fn recorded(self, now: int, value: S) -> Self {
        let ring = self.advanced(now);
        let hour = hour_of(now);
        DayModel {
            bins: ring.bins.update(hour, ring.bins[hour].combined(value)),
            updated_at: ring.updated_at,
        }
    }

    /// Whether `self` is the later of the two rings in a merge: its last
    /// advance lies after that of `other`.
    pub open spec fn leads(self, other: Self) -> bool {
        self.updated_at > other.updated_at
    }

    /// The instant both rings are aligned to in a merge: the later of their
    /// last advances.
    pub open spec fn reference(self, other: Self) -> int {
        later_of(self.updated_at, other.updated_at)
    }

    /// The merge of two rings aligned to instant `r`: the earlier ring is
    /// advanced to `r`, the buckets are combined hour by hour, and the
    /// result was last advanced at `r`.
    pub open spec fn merged_toward(self, other: Self, r: int) -> Self {
        if self.leads(other) {
            DayModel { bins: combined_bins(self.bins, other.advanced(r).bins), updated_at: r }
        } else {
            DayModel { bins: combined_bins(self.advanced(r).bins, other.bins), updated_at: r }
        }
    }

    /// The merge of two rings, aligned to their reference instant.
    pub open spec fn merged(self, other: Self) -> Self {
        self.merged_toward(other, self.reference(other))
    }
}

/// The rings of all tiers, by tier name.
pub type DailyAllTierStats<S> = HashMap<String, LastDayTierStats<S>>;

/// Statistics of one tier over the last day, one bucket per wall-clock hour
/// in UTC.
pub struct LastDayTierStats<S: Statistic> {
    /// The buckets, indexed by hour of day.
    pub bins: [S; 24],
    /// The instant of the last change that moved the current hour.
    pub updated_at: UtcInstant,
}

impl<S: Statistic> View for LastDayTierStats<S> {
    type V = DayModel<S>;

    open spec fn view(&self) -> DayModel<S> {
        DayModel { bins: self.bins@, updated_at: self.updated_at@ }
    }
}

impl<S: Statistic> Clone for LastDayTierStats<S> {
    fn clone(&self) -> (copy: Self)
        ensures
            copy == *self,
    {
        LastDayTierStats { bins: self.bins, updated_at: self.updated_at }
    }
}

impl<S: Statistic> Default for LastDayTierStats<S> {
    /// A ring of empty buckets, last advanced at the clock's current
    /// reading.
    fn default() -> (fresh: Self)
        ensures
            fresh@.bins == empty_bins::<S>(),
            representable(fresh@.updated_at),
    {
        let created = UtcInstant::now();
        proof {
            use_type_invariant(&created);
        }
        LastDayTierStats::new_at(created)
    }
}

impl<S: Statistic> LastDayTierStats<S> {
    /// A ring of empty buckets, last advanced at `created`.
    pub fn new_at(created: UtcInstant) -> (fresh: Self)
        ensures
            fresh@ == (DayModel { bins: empty_bins::<S>(), updated_at: created@ }),
    {
        let fresh = LastDayTierStats { bins: [S::zero();24], updated_at: created };
        assert(fresh@.bins =~= empty_bins::<S>());
        fresh
    }

    /// Brings the ring up to instant `t`, resetting the buckets that have
    /// gone stale since the last advance.
    ///
    /// An unset `t` is first replaced by the clock's current reading; any
    /// other `t` is left as it is.
    pub fn forward_to(&mut self, t: &mut UtcInstant)
        ensures
            !is_unset(old(t)@) ==> *final(t) == *old(t),
            representable(final(t)@),
            final(self)@ == old(self)@.advanced(final(t)@),
    {
        if t.unix_timestamp() == 0 {
            *t = UtcInstant::now();
        }
        let target: UtcInstant = *t;
        proof {
            use_type_invariant(&target);
        }
        let since: i64 = target.whole_hours_since(&self.updated_at);
        if since < 1 {
            return ;
        }
        let idx: u8 = target.hour();
        let first: u8 = self.updated_at.hour();
        let steps: u8 = if idx == first {
            23
        } else {
            (idx + HOURS_PER_DAY - first) % HOURS_PER_DAY
        };
        let mut last_idx: u8 = first;
        let mut walked: u8 = 0;

        self.updated_at = target;

        if since >= 24 {
            self.bins = [S::zero();24];
            assert(self@.bins =~= empty_bins::<S>());
            return ;
        }
        while walked < steps
            invariant
                first < 24,
                walked <= steps,
                steps == hours_stepped(first as int, idx as int),
                steps <= 23,
                last_idx == (first + walked) % 24,
                self.updated_at == target,
                forall|i: int|
                    0 <= i < 24 ==> self.bins@[i] == if 0 < (i - first) % 24 <= walked {
                        S::zero_value()
                    } else {
                        old(self).bins@[i]
                    },
            decreases steps - walked,
        {
            last_idx = (last_idx + 1) % HOURS_PER_DAY;
            self.bins[last_idx as usize] = S::zero();
            walked += 1;
        }
        assert(self@.bins =~= old(self)@.advanced(target@).bins);
    }

    /// Records `value` at instant `now`: brings the ring up to `now`, then
    /// combines `value` into the bucket of that hour.
    ///
    /// An unset `now` is first replaced by the clock's current reading.
    pub fn add_stats_at(&mut self, now: &mut UtcInstant, value: S)
        ensures
            !is_unset(old(now)@) ==> *final(now) == *old(now),
            representable(final(now)@),
            final(self)@ == old(self)@.recorded(final(now)@, value),
    {
        self.forward_to(now);
        let now_idx: usize = now.hour() as usize;
        let sum = self.bins[now_idx].combine(&value);
        self.bins[now_idx] = sum;
    }

    /// Records `value` at the clock's current reading.
    pub fn add_stats(&mut self, ts: S)
        ensures
            exists|now: int|
                representable(now) && final(self)@ == #[trigger] old(self)@.recorded(now, ts),
    {
        let mut now = UtcInstant::now();
        self.add_stats_at(&mut now, ts);
    }

    /// Reconciles two rings of one tier into a new one, leaving both as
    /// they are.
    ///
    /// The ring whose last advance is earlier is brought up to that of the
    /// other, and the buckets are then combined hour by hour. Where the
    /// instant to align to is unset, the clock's current reading takes its
    /// place.
    pub fn merge(&self, m: LastDayTierStats<S>) -> (merged: LastDayTierStats<S>)
        ensures
            !is_unset(self@.reference(m@)) ==> merged@ == self@.merged(m@),
            is_unset(self@.reference(m@)) ==> exists|now: int|
                representable(now) && merged@ == #[trigger] self@.merged_toward(m@, now),
    {
        let mut cl = self.clone();
        let mut cm = m;
        let mut reference: UtcInstant;

        if cl.updated_at.unix_nanos() > cm.updated_at.unix_nanos() {
            reference = cl.updated_at;
            cm.forward_to(&mut reference);
        } else {
            reference = cm.updated_at;
            cl.forward_to(&mut reference);
        }

        let mut bins: [S; 24] = [S::zero();24];
        let mut i: usize = 0;
        while i < BUCKETS
            invariant
                i <= 24,
                forall|k: int| 0 <= k < i ==> bins@[k] == cl.bins@[k].combined(cm.bins@[k]),
            decreases 24 - i,
        {
            bins[i] = cl.bins[i].combine(&cm.bins[i]);
            i += 1;
        }
        let merged = LastDayTierStats { bins, updated_at: reference };
        assert(merged@.bins =~= self@.merged_toward(m@, reference@).bins);
        merged
    }
}

} // verus!
