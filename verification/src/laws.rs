//! Laws of the ring's operations, proved over [`DayModel`].

use crate::instant::{
    hour_of, is_unset, later_of, whole_hours_between, UtcInstant, NANOS_PER_HOUR,
};
use crate::last_day::{combined_bins, empty_bins, hours_stepped, DayModel, LastDayTierStats};
use crate::statistic::Statistic;
use vstd::prelude::*;

verus! {

/// Whether two instants fall in the same hour of the same day.
pub open spec fn same_hour(a: int, b: int) -> bool {
    a / (NANOS_PER_HOUR as int) == b / (NANOS_PER_HOUR as int)
}

/// Advancing a ring to an instant less than one whole hour after its last
/// advance, or before it, changes nothing. In particular, advancing within
/// the hour of the last advance changes nothing.
pub proof fn forward_within_hour_is_noop<S: Statistic>(ring: LastDayTierStats<S>, t: UtcInstant)
    requires
        whole_hours_between(t@, ring@.updated_at) < 1 || same_hour(t@, ring@.updated_at),
    ensures
        ring@.advanced(t@) == ring@,
{
}

/// The value of a bucket that held `start` after each of `values` has been
/// combined into it in turn.
pub open spec fn accumulated<S: Statistic>(start: S, values: Seq<S>) -> S
    decreases values.len(),
{
    if values.len() == 0 {
        start
    } else {
        accumulated(start, values.drop_last()).combined(values.last())
    }
}

/// The ring after each of `values` has been recorded in turn, the `k`-th at
/// the `k`-th of `instants`.
pub open spec fn recorded_each<S: Statistic>(
    ring: DayModel<S>,
    instants: Seq<int>,
    values: Seq<S>,
) -> DayModel<S>
    decreases values.len(),
{
    if values.len() == 0 {
        ring
    } else {
        recorded_each(ring, instants.drop_last(), values.drop_last()).recorded(
            instants.last(),
            values.last(),
        )
    }
}

/// Recording any number of values, each within the hour of the ring's last
/// advance, combines them all into the bucket of that hour, touches no other
/// bucket and leaves the instant of the last advance as it was.
pub proof fn records_within_hour_accumulate<S: Statistic>(
    ring: LastDayTierStats<S>,
    instants: Seq<int>,
    values: Seq<S>,
)
    requires
        instants.len() == values.len(),
        forall|k: int| 0 <= k < instants.len() ==> same_hour(#[trigger] instants[k], ring@.updated_at),
    ensures
        ({
            let hour = hour_of(ring@.updated_at);
            let after = recorded_each(ring@, instants, values);
            &&& after.updated_at == ring@.updated_at
            &&& after.bins == ring@.bins.update(hour, accumulated(ring@.bins[hour], values))
            &&& forall|i: int| 0 <= i < 24 && i != hour ==> after.bins[i] == ring@.bins[i]
        }),
    decreases values.len(),
{
    let hour = hour_of(ring@.updated_at);
    let after = recorded_each(ring@, instants, values);
    if values.len() == 0 {
        assert(after.bins =~= ring@.bins.update(hour, ring@.bins[hour]));
    } else {
        let before = recorded_each(ring@, instants.drop_last(), values.drop_last());
        records_within_hour_accumulate(ring, instants.drop_last(), values.drop_last());
        assert(same_hour(instants[instants.len() - 1], ring@.updated_at));
        assert(before.advanced(instants.last()) == before);
        assert(after.bins =~= ring@.bins.update(hour, accumulated(ring@.bins[hour], values)));
    }
}

/// Advancing a ring to an instant a day or more after its last advance
/// leaves every bucket at zero, whatever the buckets held, and moves the
/// last advance to that instant.
pub proof fn forward_past_day_clears<S: Statistic>(ring: LastDayTierStats<S>, t: UtcInstant)
    requires
        whole_hours_between(t@, ring@.updated_at) >= 24,
    ensures
        ring@.advanced(t@).updated_at == t@,
        ring@.advanced(t@).bins == empty_bins::<S>(),
        forall|i: int| 0 <= i < 24 ==> ring@.advanced(t@).bins[i] == S::zero_value(),
{
}

/// Advancing a ring by at least one whole hour and less than a day walks
/// as many buckets as whole hours have passed, or one more where the later
/// instant stands less far into its hour than the earlier one; never more
/// than 23, so the bucket of the old hour is kept.
pub proof fn forward_walks_elapsed_hours<S: Statistic>(ring: LastDayTierStats<S>, t: UtcInstant)
    requires
        1 <= whole_hours_between(t@, ring@.updated_at) < 24,
    ensures
        ({
            let elapsed = whole_hours_between(t@, ring@.updated_at);
            let from = hour_of(ring@.updated_at);
            let walked = hours_stepped(from, hour_of(t@));
            let after = ring@.advanced(t@);
            &&& elapsed <= walked <= elapsed + 1
            &&& walked <= 23
            &&& after.updated_at == t@
            &&& after.bins[from] == ring@.bins[from]
            &&& forall|i: int|
                0 <= i < 24 ==> #[trigger] after.bins[i] == if 0 < (i - from) % 24 <= walked {
                    S::zero_value()
                } else {
                    ring@.bins[i]
                }
        }),
{
}

/// Advancing a ring by 23 whole hours to an instant in the hour of day of
/// its last advance resets every bucket but that of this hour.
pub proof fn forward_once_round_keeps_old_hour<S: Statistic>(
    ring: LastDayTierStats<S>,
    t: UtcInstant,
)
    requires
        1 <= whole_hours_between(t@, ring@.updated_at) < 24,
        hour_of(t@) == hour_of(ring@.updated_at),
    ensures
        ({
            let from = hour_of(ring@.updated_at);
            let after = ring@.advanced(t@);
            &&& whole_hours_between(t@, ring@.updated_at) == 23
            &&& after.updated_at == t@
            &&& after.bins[from] == ring@.bins[from]
            &&& forall|i: int| 0 <= i < 24 && i != from ==> after.bins[i] == S::zero_value()
        }),
{
}

/// Advancing a ring by at least one whole hour and less than a day, to an
/// instant whose hour of day is three past that of the last advance, resets
/// the buckets of those three hours, keeps every other bucket, that of the
/// old hour among them, and moves the last advance to the instant.
pub proof fn forward_three_hours_resets_three<S: Statistic>(
    ring: LastDayTierStats<S>,
    t: UtcInstant,
)
    requires
        1 <= whole_hours_between(t@, ring@.updated_at) < 24,
        hour_of(t@) == (hour_of(ring@.updated_at) + 3) % 24,
    ensures
        ({
            let h = hour_of(ring@.updated_at);
            let after = ring@.advanced(t@);
            &&& after.updated_at == t@
            &&& after.bins[(h + 1) % 24] == S::zero_value()
            &&& after.bins[(h + 2) % 24] == S::zero_value()
            &&& after.bins[(h + 3) % 24] == S::zero_value()
            &&& after.bins[h] == ring@.bins[h]
            &&& forall|i: int|
                0 <= i < 24 && i != (h + 1) % 24 && i != (h + 2) % 24 && i != (h + 3) % 24
                    ==> after.bins[i] == ring@.bins[i]
        }),
{
}

/// Merging two rings gives the same buckets in either order, and in
/// either order the result was last advanced at the later of the two rings'
/// last advances, provided that instant is set.
pub proof fn merge_commutes<S: Statistic>(a: LastDayTierStats<S>, b: LastDayTierStats<S>)
    requires
        !is_unset(later_of(a@.updated_at, b@.updated_at)),
    ensures
        a@.merged(b@).bins == b@.merged(a@).bins,
        a@.merged(b@).updated_at == later_of(a@.updated_at, b@.updated_at),
        b@.merged(a@).updated_at == later_of(a@.updated_at, b@.updated_at),
        a@.merged(b@) == b@.merged(a@),
{
    let ab = a@.merged(b@);
    let ba = b@.merged(a@);
    assert forall|i: int| 0 <= i < 24 implies ab.bins[i] == ba.bins[i] by {
        if a@.leads(b@) {
            S::combined_commutes(a@.bins[i], b@.advanced(a@.updated_at).bins[i]);
        } else if b@.leads(a@) {
            S::combined_commutes(b@.bins[i], a@.advanced(b@.updated_at).bins[i]);
        } else {
            S::combined_commutes(a@.bins[i], b@.bins[i]);
        }
    }
    assert(ab.bins =~= ba.bins);
}

/// Merging two rings last advanced at the same, set instant combines their
/// buckets hour by hour and resets none.
pub proof fn merge_aligned_combines<S: Statistic>(a: LastDayTierStats<S>, b: LastDayTierStats<S>)
    requires
        a@.updated_at == b@.updated_at,
        !is_unset(a@.updated_at),
    ensures
        a@.merged(b@).updated_at == a@.updated_at,
        a@.merged(b@).bins == combined_bins(a@.bins, b@.bins),
        forall|i: int|
            0 <= i < 24 ==> a@.merged(b@).bins[i] == a@.bins[i].combined(b@.bins[i]),
{
}

} // verus!
