//! A donation ledger with running statistics, for contracts on a Soroban host.
//!
//! [`AidChainContract`] owns the append-only list of [`Donation`] records and
//! the [`DonationStats`] that are kept in step with it. Every operation states
//! its effect over the list of records and over the statistics. A ledger that
//! starts empty has, at every moment, the [`summary`] of its records as its
//! statistics.
//!
//! Donors and labels are the host's own `Address` and `Symbol` values. The
//! records are kept in a host vector and the counts by category and by region
//! in host maps, both in the `Env` that the ledger was made in; values from
//! another `Env` are brought into it on their way in.

pub mod donation;
pub mod host;
pub mod ledger;
pub mod stats;
pub mod summary;

pub use donation::{Donation, DonationStatus, LedgerError};
pub use host::{rows, tally, Row};
pub use ledger::{given_by, in_category, in_region, AidChainContract};
pub use stats::{count_or_zero, DonationStats, StatsView};
pub use summary::{
    categories, label_counts, occurrences, regions, sum_amounts, sum_values, summary,
};
