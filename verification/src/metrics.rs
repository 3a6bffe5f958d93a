//! Raw system readings and the unit conversions the widget applies to them.
//!
//! A reading arrives as plain counters: the global CPU usage in tenths of
//! a percent, and the used and total memory in bytes. The widget displays
//! memory in hundredths of a gigabyte (two decimal places) and percentages
//! in tenths (one decimal place), so the conversions here round a scaled
//! quotient to the nearest integer, ties upward.

use vstd::prelude::*;

verus! {

/// Number of bytes in one gigabyte (a gibibyte, 1024 * 1024 * 1024).
pub const BYTES_PER_GB: u64 = 0x4000_0000;

/// One set of CPU and memory readings captured at a single refresh.
///
/// `cpu_tenths` is the global CPU usage in tenths of a percent
/// (so 375 means 37.5%); memory is in bytes.
#[derive(Clone, Copy, Debug, PartialEq, Eq, Structural)]
pub struct Snapshot {
    pub cpu_tenths: u32,
    pub used_memory_bytes: u64,
    pub total_memory_bytes: u64,
}

impl Snapshot {
    /// A snapshot is well formed when the CPU usage is at most 100%
    /// and no more memory is used than exists.
    pub open spec fn wf(self) -> bool {
        self.cpu_tenths <= 1000 && self.used_memory_bytes <= self.total_memory_bytes
    }
}

/// The scaled quotient `numer / denom`, rounded to the nearest integer,
/// ties upward: `(numer + denom / 2) / denom`.
pub open spec fn rounded_div(numer: int, denom: int) -> int
    recommends
        denom > 0,
{
    (numer + denom / 2) / denom
}

/// A byte count as hundredths of a gigabyte, rounded to nearest.
pub open spec fn gb_hundredths_of(bytes: int) -> int {
    rounded_div(bytes * 100, BYTES_PER_GB as int)
}

/// Converts a byte count to hundredths of a gigabyte, rounding to the
/// nearest hundredth (ties upward), as the two-decimal display does.
pub fn bytes_to_gb_hundredths(bytes: u64) -> (r: u64)
    ensures
        r == gb_hundredths_of(bytes as int),
{
    let wide: u128 = (bytes as u128) * 100 + (BYTES_PER_GB as u128) / 2;
    let r_wide: u128 = wide / (BYTES_PER_GB as u128);
    proof {
        vstd::arithmetic::div_mod::lemma_div_is_ordered(
            wide as int,
            u64::MAX * 100 + BYTES_PER_GB / 2,
            BYTES_PER_GB as int,
        );
        assert((u64::MAX * 100 + BYTES_PER_GB / 2) / (BYTES_PER_GB as int) <= u64::MAX)
            by (nonlinear_arith);
    }
    r_wide as u64
}

/// The share `used / total` as tenths of a percent, rounded to nearest:
/// `(used * 1000 + total / 2) / total`.
pub open spec fn percent_tenths_of(used: int, total: int) -> int
    recommends
        total > 0,
{
    rounded_div(used * 1000, total)
}

/// Computes what share of `total` the value `used` is, in tenths of a
/// percent, rounded to the nearest tenth (ties upward). A zero total has
/// no meaningful share and yields zero.
pub fn percent_tenths(used: u64, total: u64) -> (r: u64)
    requires
        used <= total,
    ensures
        total > 0 ==> r == percent_tenths_of(used as int, total as int),
        total == 0 ==> r == 0,
        r <= 1000,
{
    if total == 0 {
        return 0;
    }
    let wide: u128 = (used as u128) * 1000 + (total as u128) / 2;
    let r_wide: u128 = wide / (total as u128);
    proof {
        assert(wide <= total * 1000 + total / 2);
        assert((wide as int) / (total as int) <= 1000) by (nonlinear_arith)
            requires
                total > 0,
                wide <= total * 1000 + total / 2,
        ;
    }
    r_wide as u64
}

} // verus!
