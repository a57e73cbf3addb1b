//! The quantity held in each bucket.

use vstd::prelude::*;

verus! {

/// A value with a zero and a total, commutative, associative combine.
///
/// The histogram assumes nothing else about what a bucket holds.
pub trait Statistic: Copy {
    /// The zero a bucket is reset to.
    spec fn zero_value() -> Self;

    /// The combination of two values.
    spec fn combined(self, other: Self) -> Self;

    /// Returns the zero.
    fn zero() -> (z: Self)
        ensures
            z == Self::zero_value(),
    ;

    /// Combines `self` with `other` into a new value.
    fn combine(&self, other: &Self) -> (sum: Self)
        ensures
            sum == self.combined(*other),
    ;

    /// Combining does not depend on the order of its operands.
    proof fn combined_commutes(a: Self, b: Self)
        ensures
            a.combined(b) == b.combined(a),
    ;

    /// Combining does not depend on how its operands are grouped.
    proof fn combined_associates(a: Self, b: Self, c: Self)
        ensures
            a.combined(b).combined(c) == a.combined(b.combined(c)),
    ;
}

/// Transition counters of one tier: bytes, versions and objects moved.
///
/// Counters wrap around on overflow, which keeps combining total.
#[derive(Clone, Copy, Debug, PartialEq, Eq)]
pub struct TierStats {
    pub total_size: u64,
    pub num_versions: i32,
    pub num_objects: i32,
}

impl Default for TierStats {
    fn default() -> (z: Self)
        ensures
            z == Self::zero_value(),
    {
        TierStats { total_size: 0, num_versions: 0, num_objects: 0 }
    }
}

impl Statistic for TierStats {
    open spec fn zero_value() -> Self {
        TierStats { total_size: 0, num_versions: 0, num_objects: 0 }
    }

    open spec fn combined(self, other: Self) -> Self {
        TierStats {
            total_size: vstd::wrapping::u64_specs::wrapping_add(self.total_size, other.total_size),
            num_versions: vstd::wrapping::i32_specs::wrapping_add(
                self.num_versions,
                other.num_versions,
            ),
            num_objects: vstd::wrapping::i32_specs::wrapping_add(
                self.num_objects,
                other.num_objects,
            ),
        }
    }

    fn zero() -> (z: Self) {
        TierStats { total_size: 0, num_versions: 0, num_objects: 0 }
    }

    fn combine(&self, other: &Self) -> (sum: Self) {
        TierStats {
            total_size: self.total_size.wrapping_add(other.total_size),
            num_versions: self.num_versions.wrapping_add(other.num_versions),
            num_objects: self.num_objects.wrapping_add(other.num_objects),
        }
    }

    proof fn combined_commutes(a: Self, b: Self) {
    }

    proof fn combined_associates(a: Self, b: Self, c: Self) {
    }
}

} // verus!
