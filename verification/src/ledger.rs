//! The ledger: an append-only list of donations, the statistics kept in step
//! with it, and the confirmation of deliveries.

use crate::donation::{Donation, DonationStatus, LedgerError};
use crate::host::{
    add_row, copy_symbol, count_of, empty_counts, ledger_time, no_rows, put_row, row_at, row_count,
    rows, same_address, same_symbol, set_count, tally, Row,
};
use crate::stats::{count_or_zero, DonationStats};
use crate::summary::{
    categories, lemma_occurrences_bounded, lemma_summary_delivered, lemma_summary_of_nothing,
    lemma_summary_push, regions, sum_amounts, summary,
};
use soroban_sdk::{Address, Env, Symbol};
use vstd::prelude::*;

verus! {

/// The predicate "was given by `donor`".
pub open spec fn given_by(donor: Address) -> spec_fn(Donation) -> bool {
    |d: Donation| d.donor == donor
}

/// The predicate "was given under `category`".
pub open spec fn in_category(category: Symbol) -> spec_fn(Donation) -> bool {
    |d: Donation| d.category == category
}

/// The predicate "was given for `region`".
pub open spec fn in_region(region: Symbol) -> spec_fn(Donation) -> bool {
    |d: Donation| d.region == region
}

/// The records that the entries of a host vector stand for.
spec fn records(entries: Seq<Option<Row>>) -> Seq<Donation> {
    Seq::new(entries.len(), |i: int| Donation::of_row(entries[i].unwrap()))
}

/// Every entry is a row.
spec fn all_rows(entries: Seq<Option<Row>>) -> bool {
    forall|i: int| 0 <= i < entries.len() ==> (#[trigger] entries[i]).is_some()
}

/// Filtering none of the records gives none.
proof fn lemma_filter_none(ledger: Seq<Donation>, keep: spec_fn(Donation) -> bool)
    ensures
        ledger.take(0).filter(keep) == Seq::<Donation>::empty(),
{
    reveal(Seq::filter);
    assert(ledger.take(0).filter(keep) =~= Seq::empty());
}

/// Filtering the first `i + 1` records is filtering the first `i` and then
/// taking or leaving record `i`.
proof fn lemma_filter_next(ledger: Seq<Donation>, i: int, keep: spec_fn(Donation) -> bool)
    requires
        0 <= i < ledger.len(),
    ensures
        ledger.take(i + 1).filter(keep) == if keep(ledger[i]) {
            ledger.take(i).filter(keep).push(ledger[i])
        } else {
            ledger.take(i).filter(keep)
        },
{
    reveal(Seq::filter);
    assert(ledger.take(i + 1).drop_last() =~= ledger.take(i));
}

/// One more row at the end is one more record at the end.
proof fn lemma_records_push(entries: Seq<Option<Row>>, donation: Donation)
    requires
        all_rows(entries),
    ensures
        all_rows(entries.push(Some(donation.as_row()))),
        records(entries.push(Some(donation.as_row()))) == records(entries).push(donation),
{
    donation.lemma_row_round_trip();
    assert(records(entries.push(Some(donation.as_row()))) =~= records(entries).push(donation));
}

/// Another row in one place is another record in that place.
proof fn lemma_records_update(entries: Seq<Option<Row>>, i: int, donation: Donation)
    requires
        all_rows(entries),
        0 <= i < entries.len(),
    ensures
        all_rows(entries.update(i, Some(donation.as_row()))),
        records(entries.update(i, Some(donation.as_row()))) == records(entries).update(
            i,
            donation,
        ),
{
    donation.lemma_row_round_trip();
    assert(records(entries.update(i, Some(donation.as_row()))) =~= records(entries).update(
        i,
        donation,
    ));
}

/// The donation ledger with its statistics.
///
/// The records are kept as rows of a host vector. The view of a ledger is the
/// list of its records in the order in which they were made.
///
/// Every ledger that this module hands out is *intact*: its host vector holds
/// rows and nothing else. A ledger is *well-formed* when, besides, its
/// statistics are the [`summary`] of its records and every record is valid.
/// [`AidChainContract::new`] makes a well-formed ledger and every operation
/// keeps a well-formed ledger well-formed, so the statistics never have to be
/// counted again. [`AidChainContract::from_parts`] takes records and
/// statistics as they were saved, and does not look whether they agree.
pub struct AidChainContract {
    donations: soroban_sdk::Vec<Row>,
    stats: DonationStats,
}

impl View for AidChainContract {
    type V = Seq<Donation>;

    closed spec fn view(&self) -> Seq<Donation> {
        records(rows(self.donations))
    }
}

impl AidChainContract {
    /// The statistics that the ledger holds.
    pub closed spec fn stats(&self) -> DonationStats {
        self.stats
    }

    /// Every entry of the host vector is a row, and there are no more of
    /// them than a host vector has places.
    pub closed spec fn intact(&self) -> bool {
        &&& all_rows(rows(self.donations))
        &&& rows(self.donations).len() <= u32::MAX
    }

    /// The ledger is intact, the statistics are the summary of the records,
    /// and every record is valid.
    pub open spec fn wf(&self) -> bool {
        &&& self.intact()
        &&& self.stats()@ == summary(self@)
        &&& forall|i: int| 0 <= i < self@.len() ==> (#[trigger] self@[i]).valid()
    }

    /// There is room for one more donation of `amount` under `category` and
    /// `region`: a place in the host vector, and no number of the statistics
    /// would leave the range of `i128`.
    pub open spec fn room_for(&self, amount: i128, category: Symbol, region: Symbol) -> bool {
        &&& self@.len() < u32::MAX
        &&& self.stats().total_donations < i128::MAX
        &&& self.stats().total_amount + amount <= i128::MAX
        &&& count_or_zero(self.stats()@.category_stats, category) < i128::MAX
        &&& count_or_zero(self.stats()@.region_stats, region) < i128::MAX
    }

    /// In a well-formed ledger there is room for a donation as soon as the
    /// host vector has a place for it and the total amount can take it.
    pub proof fn lemma_room(&self, amount: i128, category: Symbol, region: Symbol)
        requires
            self.wf(),
            self@.len() < u32::MAX,
            sum_amounts(self@) + amount <= i128::MAX,
        ensures
            self.room_for(amount, category, region),
    {
        lemma_occurrences_bounded(categories(self@), category);
        lemma_occurrences_bounded(regions(self@), region);
    }

    /// However often the statistics of a ledger are read, as long as the
    /// ledger is not changed in between, the readings are equal.
    pub proof fn lemma_reads_agree(&self, first: DonationStats, second: DonationStats)
        requires
            first@ == self.stats()@,
            second@ == self.stats()@,
        ensures
            first@ == second@,
    {
    }

    /// A ledger without records, whose records and statistics live in `env`.
    pub fn new(env: &Env) -> (r: Self)
        ensures
            r.wf(),
            r@ == Seq::<Donation>::empty(),
    {
        let r = AidChainContract { donations: no_rows(env), stats: Self::no_stats(env) };
        assert(r@ =~= Seq::empty());
        r
    }

    /// The statistics of a ledger without records.
    fn no_stats(env: &Env) -> (r: DonationStats)
        ensures
            r@ == summary(Seq::empty()),
    {
        let r = DonationStats {
            total_donations: 0,
            total_amount: 0,
            category_stats: empty_counts(env),
            region_stats: empty_counts(env),
        };
        proof {
            lemma_summary_of_nothing();
            assert(r@.category_stats =~= summary(Seq::empty()).category_stats);
            assert(r@.region_stats =~= summary(Seq::empty()).region_stats);
        }
        r
    }

    /// Puts a ledger together from records and statistics as they were
    /// saved: the records go into a host vector of `env` in their order, the
    /// statistics are taken as they are. Nothing is counted, so the ledger is
    /// well-formed exactly if the parts agree. More records than a host
    /// vector has places are refused.
    pub fn from_parts(
        env: &Env,
        donations: Vec<Donation>,
        stats: DonationStats,
    ) -> (r: Option<Self>)
        ensures
            r.is_some() == (donations@.len() <= u32::MAX),
            r.is_some() ==> r.unwrap().intact(),
            r.is_some() ==> r.unwrap()@ == donations@,
            r.is_some() ==> r.unwrap().stats() == stats,
    {
        let n = donations.len();
        if n > u32::MAX as usize {
            return None;
        }
        let mut kept = no_rows(env);
        assert(records(rows(kept)) =~= donations@.take(0));
        let mut i: usize = 0;
        while i < n
            invariant
                n == donations@.len(),
                n <= u32::MAX,
                i <= n,
                all_rows(rows(kept)),
                records(rows(kept)) == donations@.take(i as int),
            decreases n - i,
        {
            proof {
                let seen = donations@.take(i as int);
                assert(donations@.take(i + 1) =~= seen.push(donations@[i as int]));
                lemma_records_push(rows(kept), donations@[i as int]);
            }
            add_row(&mut kept, donations[i].to_row());
            i = i + 1;
        }
        proof {
            assert(donations@.take(n as int) =~= donations@);
        }
        Some(AidChainContract { donations: kept, stats })
    }

    /// Whether there is room for one more donation of `amount` under
    /// `category` and `region`.
    pub fn has_room(&self, amount: i128, category: &Symbol, region: &Symbol) -> (r: bool)
        ensures
            r == self.room_for(amount, *category, *region),
    {
        let in_category = match count_of(&self.stats.category_stats, category) {
            Some(n) => n,
            None => 0,
        };
        let in_region = match count_of(&self.stats.region_stats, region) {
            Some(n) => n,
            None => 0,
        };
        let amount_fits = amount <= 0 || self.stats.total_amount <= i128::MAX - amount;
        row_count(&self.donations) < u32::MAX && self.stats.total_donations < i128::MAX
            && amount_fits && in_category < i128::MAX && in_region < i128::MAX
    }

    /// Records a donation made at the host's current ledger time.
    ///
    /// An amount of zero or less is refused with `InvalidAmount`. Otherwise
    /// the donation is appended as pending, counted into the statistics, and
    /// returned; its time is whatever the host reports. There must be room
    /// for it: see [`AidChainContract::room_for`].
    pub fn create_donation(
        &mut self,
        env: &Env,
        donor: Address,
        amount: i128,
        category: Symbol,
        region: Symbol,
        organization: Symbol,
    ) -> (r: Result<Donation, LedgerError>)
        requires
            old(self).intact(),
            amount > 0 ==> old(self).room_for(amount, category, region),
        ensures
            final(self).intact(),
            old(self).wf() ==> final(self).wf(),
            amount <= 0 ==> (r matches Err(LedgerError::InvalidAmount)),
            amount <= 0 ==> *final(self) == *old(self),
            amount > 0 ==> r.is_ok(),
            amount > 0 ==> r.unwrap() == Donation::pending(
                donor,
                amount,
                category,
                region,
                organization,
                r.unwrap().timestamp,
            ),
            amount > 0 ==> final(self)@ == old(self)@.push(r.unwrap()),
            amount > 0 ==> final(self).stats()@ == old(self).stats()@.with(r.unwrap()),
    {
        let now = ledger_time(env);
        self.create_donation_at(donor, amount, category, region, organization, now)
    }

    /// Records a donation made at `timestamp`.
    ///
    /// An amount of zero or less is refused with `InvalidAmount`. Otherwise
    /// the donation is appended as pending, counted into the statistics, and
    /// returned. There must be room for it: see
    /// [`AidChainContract::room_for`].
    pub fn create_donation_at(
        &mut self,
        donor: Address,
        amount: i128,
        category: Symbol,
        region: Symbol,
        organization: Symbol,
        timestamp: u64,
    ) -> (r: Result<Donation, LedgerError>)
        requires
            old(self).intact(),
            amount > 0 ==> old(self).room_for(amount, category, region),
        ensures
            final(self).intact(),
            old(self).wf() ==> final(self).wf(),
            amount <= 0 ==> (r matches Err(LedgerError::InvalidAmount)),
            amount <= 0 ==> *final(self) == *old(self),
            amount > 0 ==> r.is_ok(),
            amount > 0 ==> r.unwrap() == Donation::pending(
                donor,
                amount,
                category,
                region,
                organization,
                timestamp,
            ),
            amount > 0 ==> final(self)@ == old(self)@.push(r.unwrap()),
            amount > 0 ==> final(self).stats()@ == old(self).stats()@.with(r.unwrap()),
    {
        if amount <= 0 {
            return Err(LedgerError::InvalidAmount);
        }
        let donation = Donation {
            donor,
            amount,
            category,
            region,
            organization,
            timestamp,
            status: DonationStatus::Pending,
            delivery_nft_id: None,
        };
        proof {
            lemma_summary_push(self@, donation);
            lemma_records_push(rows(self.donations), donation);
        }
        add_row(&mut self.donations, donation.to_row());
        Self::update_stats(&mut self.stats, &donation);
        Ok(donation)
    }

    /// Counts `donation` into `stats`.
    fn update_stats(stats: &mut DonationStats, donation: &Donation)
        requires
            old(stats).total_donations < i128::MAX,
            i128::MIN <= old(stats).total_amount + donation.amount <= i128::MAX,
            count_or_zero(tally(old(stats).category_stats), donation.category) < i128::MAX,
            count_or_zero(tally(old(stats).region_stats), donation.region) < i128::MAX,
        ensures
            final(stats)@ == old(stats)@.with(*donation),
    {
        stats.total_donations = stats.total_donations + 1;
        stats.total_amount = stats.total_amount + donation.amount;

        let current_category_count = match count_of(&stats.category_stats, &donation.category) {
            Some(n) => n,
            None => 0,
        };
        set_count(
            &mut stats.category_stats,
            copy_symbol(&donation.category),
            current_category_count + 1,
        );

        let current_region_count = match count_of(&stats.region_stats, &donation.region) {
            Some(n) => n,
            None => 0,
        };
        set_count(&mut stats.region_stats, copy_symbol(&donation.region), current_region_count + 1);
    }

    /// Every record, in the order in which they were made.
    pub fn get_donations(&self) -> (r: Vec<Donation>)
        requires
            self.intact(),
        ensures
            r@ == self@,
    {
        let mut all: Vec<Donation> = Vec::new();
        let n = row_count(&self.donations);
        let mut i: u32 = 0;
        while i < n
            invariant
                self.intact(),
                n == self@.len(),
                i <= n,
                all@ == self@.take(i as int),
            decreases n - i,
        {
            if let Some(row) = row_at(&self.donations, i) {
                all.push(Donation::from_row(row));
            }
            assert(self@.take(i + 1) =~= self@.take(i as int).push(self@[i as int]));
            i = i + 1;
        }
        assert(self@.take(n as int) =~= self@);
        all
    }

    /// The records given by `donor`, in ledger order.
    pub fn get_donations_by_donor(&self, donor: Address) -> (r: Vec<Donation>)
        requires
            self.intact(),
        ensures
            r@ == self@.filter(given_by(donor)),
    {
        let mut donor_donations: Vec<Donation> = Vec::new();
        let n = row_count(&self.donations);
        let mut i: u32 = 0;
        proof {
            lemma_filter_none(self@, given_by(donor));
        }
        while i < n
            invariant
                self.intact(),
                n == self@.len(),
                i <= n,
                donor_donations@ == self@.take(i as int).filter(given_by(donor)),
            decreases n - i,
        {
            proof {
                lemma_filter_next(self@, i as int, given_by(donor));
            }
            if let Some(row) = row_at(&self.donations, i) {
                let donation = Donation::from_row(row);
                if same_address(&donation.donor, &donor) {
                    donor_donations.push(donation);
                }
            }
            i = i + 1;
        }
        assert(self@.take(n as int) =~= self@);
        donor_donations
    }

    /// The records given under `category`, in ledger order.
    pub fn get_donations_by_category(&self, category: Symbol) -> (r: Vec<Donation>)
        requires
            self.intact(),
        ensures
            r@ == self@.filter(in_category(category)),
    {
        let mut category_donations: Vec<Donation> = Vec::new();
        let n = row_count(&self.donations);
        let mut i: u32 = 0;
        proof {
            lemma_filter_none(self@, in_category(category));
        }
        while i < n
            invariant
                self.intact(),
                n == self@.len(),
                i <= n,
                category_donations@ == self@.take(i as int).filter(in_category(category)),
            decreases n - i,
        {
            proof {
                lemma_filter_next(self@, i as int, in_category(category));
            }
            if let Some(row) = row_at(&self.donations, i) {
                let donation = Donation::from_row(row);
                if same_symbol(&donation.category, &category) {
                    category_donations.push(donation);
                }
            }
            i = i + 1;
        }
        assert(self@.take(n as int) =~= self@);
        category_donations
    }

    /// The records given for `region`, in ledger order.
    pub fn get_donations_by_region(&self, region: Symbol) -> (r: Vec<Donation>)
        requires
            self.intact(),
        ensures
            r@ == self@.filter(in_region(region)),
    {
        let mut region_donations: Vec<Donation> = Vec::new();
        let n = row_count(&self.donations);
        let mut i: u32 = 0;
        proof {
            lemma_filter_none(self@, in_region(region));
        }
        while i < n
            invariant
                self.intact(),
                n == self@.len(),
                i <= n,
                region_donations@ == self@.take(i as int).filter(in_region(region)),
            decreases n - i,
        {
            proof {
                lemma_filter_next(self@, i as int, in_region(region));
            }
            if let Some(row) = row_at(&self.donations, i) {
                let donation = Donation::from_row(row);
                if same_symbol(&donation.region, &region) {
                    region_donations.push(donation);
                }
            }
            i = i + 1;
        }
        assert(self@.take(n as int) =~= self@);
        region_donations
    }

    /// Marks the record at `donation_index` as delivered and attaches
    /// `nft_id` to it, whatever its status was.
    ///
    /// An index at which no record stands is refused with `IndexOutOfBounds`.
    /// The statistics are not touched.
    pub fn confirm_delivery(&mut self, donation_index: u32, nft_id: Symbol) -> (r: Result<
        Donation,
        LedgerError,
    >)
        requires
            old(self).intact(),
        ensures
            final(self).intact(),
            old(self).wf() ==> final(self).wf(),
            final(self).stats() == old(self).stats(),
            donation_index >= old(self)@.len() ==> (r matches Err(LedgerError::IndexOutOfBounds)),
            donation_index >= old(self)@.len() ==> *final(self) == *old(self),
            donation_index < old(self)@.len() ==> r.is_ok(),
            donation_index < old(self)@.len() ==> r.unwrap() == old(self)@.index(
                donation_index as int,
            ).delivered_with(nft_id),
            donation_index < old(self)@.len() ==> final(self)@ == old(self)@.update(
                donation_index as int,
                r.unwrap(),
            ),
    {
        match row_at(&self.donations, donation_index) {
            None => Err(LedgerError::IndexOutOfBounds),
            Some(row) => {
                let mut donation = Donation::from_row(row);
                donation.status = DonationStatus::Delivered;
                donation.delivery_nft_id = Some(nft_id);
                proof {
                    lemma_summary_delivered(self@, donation_index as int, nft_id);
                    lemma_records_update(rows(self.donations), donation_index as int, donation);
                }
                put_row(&mut self.donations, donation_index, donation.to_row());
                Ok(donation)
            },
        }
    }

    /// The statistics as they stand.
    pub fn get_stats(&self) -> (r: DonationStats)
        ensures
            r@ == self.stats()@,
            self.wf() ==> r@ == summary(self@),
    {
        self.stats.clone()
    }

    /// The total amount that the statistics hold: in a well-formed ledger,
    /// the sum of the amounts of all records.
    pub fn get_total_amount(&self) -> (r: i128)
        ensures
            r == self.stats().total_amount,
            self.wf() ==> r == sum_amounts(self@),
    {
        self.stats.total_amount
    }

    /// The number of donations that the statistics hold: in a well-formed
    /// ledger, the number of records.
    pub fn get_donation_count(&self) -> (r: i128)
        ensures
            r == self.stats().total_donations,
            self.wf() ==> r == self@.len(),
    {
        self.stats.total_donations
    }
}

} // verus!
