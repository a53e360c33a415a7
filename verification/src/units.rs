//! Units shared by every reading.

use vstd::prelude::*;

verus! {

/// Fractional readings are held as whole numbers of millionths of their unit:
/// `45.5 %` is `45_500_000`.
pub const MICRO: u64 = 1_000_000;

/// Bytes in one MB.
pub const BYTES_PER_MB: u64 = 1024 * 1024;

/// The share of `total` that `used` is, in millionths of a percent and
/// rounded down: zero where `total` is zero, and the largest number that
/// fits where the share is beyond it.
pub open spec fn share_micro_percent(used: u64, total: u64) -> u64 {
    if total == 0 {
        0
    } else if used * 100_000_000 / (total as int) > u64::MAX {
        u64::MAX
    } else {
        (used * 100_000_000 / (total as int)) as u64
    }
}

/// A part of a whole is a share of at most 100 %.
pub proof fn lemma_share_of_part(used: u64, total: u64)
    requires
        used <= total,
    ensures
        share_micro_percent(used, total) <= 100 * MICRO,
{
    if total > 0 {
        let t = total as int;
        let u = used as int;
        assert(u * 100_000_000 / t <= 100_000_000) by (nonlinear_arith)
            requires
                0 <= u <= t,
                t > 0,
        ;
    }
}

/// The share of `total` that `used` is, in millionths of a percent.
pub fn share_of(used: u64, total: u64) -> (share: u64)
    ensures
        share == share_micro_percent(used, total),
{
    if total == 0 {
        0
    } else {
        let scaled: u128 = used as u128 * 100_000_000;
        let share: u128 = scaled / (total as u128);
        if share > u64::MAX as u128 {
            u64::MAX
        } else {
            share as u64
        }
    }
}

} // verus!
