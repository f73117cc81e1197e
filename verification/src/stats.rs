//! The running statistics and their view as numbers and maps.

use crate::donation::Donation;
use crate::host::{copy_counts, tally};
use soroban_sdk::Symbol;
use vstd::prelude::*;

verus! {

/// Totals over every donation ever recorded. The two maps hold, for each
/// category and each region in use, the number of donations recorded with it.
#[derive(Debug, PartialEq, Eq)]
pub struct DonationStats {
    pub total_donations: i128,
    pub total_amount: i128,
    pub category_stats: soroban_sdk::Map<Symbol, i128>,
    pub region_stats: soroban_sdk::Map<Symbol, i128>,
}

/// The statistics as numbers and maps.
pub struct StatsView {
    pub total_donations: int,
    pub total_amount: int,
    pub category_stats: Map<Symbol, int>,
    pub region_stats: Map<Symbol, int>,
}

impl View for DonationStats {
    type V = StatsView;

    open spec fn view(&self) -> StatsView {
        StatsView {
            total_donations: self.total_donations as int,
            total_amount: self.total_amount as int,
            category_stats: tally(self.category_stats),
            region_stats: tally(self.region_stats),
        }
    }
}

impl Clone for DonationStats {
    fn clone(&self) -> (r: Self)
        ensures
            r@ == self@,
    {
        DonationStats {
            total_donations: self.total_donations,
            total_amount: self.total_amount,
            category_stats: copy_counts(&self.category_stats),
            region_stats: copy_counts(&self.region_stats),
        }
    }
}

/// The number that `m` holds for `label`, or zero where it holds none.
pub open spec fn count_or_zero(m: Map<Symbol, int>, label: Symbol) -> int {
    if m.contains_key(label) {
        m[label]
    } else {
        0
    }
}

impl StatsView {
    /// The statistics after one more donation has been counted: one more
    /// donation, its amount more in total, and one more under its category
    /// and under its region.
    pub open spec fn with(self, donation: Donation) -> StatsView {
        StatsView {
            total_donations: self.total_donations + 1,
            total_amount: self.total_amount + donation.amount,
            category_stats: self.category_stats.insert(
                donation.category,
                count_or_zero(self.category_stats, donation.category) + 1,
            ),
            region_stats: self.region_stats.insert(
                donation.region,
                count_or_zero(self.region_stats, donation.region) + 1,
            ),
        }
    }
}

} // verus!
