//! What the statistics of a ledger are, stated over the list of its records,
//! and the arithmetic that keeping them in step rests on.

use crate::donation::Donation;
use crate::stats::StatsView;
use soroban_sdk::Symbol;
use vstd::prelude::*;

verus! {

/// How many times `label` stands in `labels`.
pub open spec fn occurrences(labels: Seq<Symbol>, label: Symbol) -> nat
    decreases labels.len(),
{
    if labels.len() == 0 {
        0
    } else {
        occurrences(labels.drop_last(), label) + if labels.last() == label {
            1nat
        } else {
            0nat
        }
    }
}

/// The map that gives each label standing in `labels` the number of times it
/// stands there, and has no entry for any other label.
pub open spec fn label_counts(labels: Seq<Symbol>) -> Map<Symbol, int> {
    Map::new(
        |label: Symbol| occurrences(labels, label) > 0,
        |label: Symbol| occurrences(labels, label) as int,
    )
}

/// The sum of the numbers that a map with finitely many entries holds.
pub open spec fn sum_values(m: Map<Symbol, int>) -> int
    decreases m.dom().len(),
    when m.dom().finite()
{
    if m.dom().len() == 0 {
        0
    } else {
        let k = m.dom().choose();
        m[k] + sum_values(m.remove(k))
    }
}

/// The sum of the amounts of the records in `ledger`.
pub open spec fn sum_amounts(ledger: Seq<Donation>) -> int
    decreases ledger.len(),
{
    if ledger.len() == 0 {
        0
    } else {
        sum_amounts(ledger.drop_last()) + ledger.last().amount
    }
}

/// The categories of the records in `ledger`, in ledger order.
pub open spec fn categories(ledger: Seq<Donation>) -> Seq<Symbol> {
    Seq::new(ledger.len(), |i: int| ledger[i].category)
}

/// The regions of the records in `ledger`, in ledger order.
pub open spec fn regions(ledger: Seq<Donation>) -> Seq<Symbol> {
    Seq::new(ledger.len(), |i: int| ledger[i].region)
}

/// The statistics that belong to `ledger`.
pub open spec fn summary(ledger: Seq<Donation>) -> StatsView {
    StatsView {
        total_donations: ledger.len() as int,
        total_amount: sum_amounts(ledger),
        category_stats: label_counts(categories(ledger)),
        region_stats: label_counts(regions(ledger)),
    }
}

/// One more label at the end raises the count of that label by one and leaves
/// every other count as it was.
pub proof fn lemma_occurrences_push(labels: Seq<Symbol>, last: Symbol, label: Symbol)
    ensures
        occurrences(labels.push(last), label) == occurrences(labels, label) + if last == label {
            1nat
        } else {
            0nat
        },
{
    assert(labels.push(last).drop_last() =~= labels);
}

/// No label stands in a list more often than the list is long.
pub proof fn lemma_occurrences_bounded(labels: Seq<Symbol>, label: Symbol)
    ensures
        occurrences(labels, label) <= labels.len(),
    decreases labels.len(),
{
    if labels.len() > 0 {
        lemma_occurrences_bounded(labels.drop_last(), label);
    }
}

/// One more label at the end changes the map of counts in one entry: that of
/// the new label, which becomes one more than the label's count so far.
pub proof fn lemma_label_counts_push(labels: Seq<Symbol>, last: Symbol)
    ensures
        label_counts(labels.push(last)) == label_counts(labels).insert(
            last,
            (occurrences(labels, last) + 1) as int,
        ),
{
    assert forall|label: Symbol|
        occurrences(labels.push(last), label) == #[trigger] occurrences(labels, label) + if last
            == label {
            1nat
        } else {
            0nat
        } by {
        lemma_occurrences_push(labels, last, label);
    }
    assert(label_counts(labels.push(last)) =~= label_counts(labels).insert(
        last,
        (occurrences(labels, last) + 1) as int,
    ));
}

proof fn lemma_sum_values_remove(m: Map<Symbol, int>, k: Symbol)
    requires
        m.dom().finite(),
        m.contains_key(k),
    ensures
        sum_values(m) == m[k] + sum_values(m.remove(k)),
    decreases m.dom().len(),
{
    let c = m.dom().choose();
    if c != k {
        lemma_sum_values_remove(m.remove(c), k);
        lemma_sum_values_remove(m.remove(k), c);
        assert(m.remove(c).remove(k) =~= m.remove(k).remove(c));
    }
}

/// Writing `v` under `k` changes the sum by `v`, less what stood under `k`.
pub proof fn lemma_sum_values_insert(m: Map<Symbol, int>, k: Symbol, v: int)
    requires
        m.dom().finite(),
    ensures
        sum_values(m.insert(k, v)) == sum_values(m) + v - if m.contains_key(k) {
            m[k]
        } else {
            0
        },
{
    let n = m.insert(k, v);
    lemma_sum_values_remove(n, k);
    if m.contains_key(k) {
        lemma_sum_values_remove(m, k);
        assert(n.remove(k) =~= m.remove(k));
    } else {
        assert(n.remove(k) =~= m);
    }
}

/// The map of counts of a list has finitely many entries, and its counts add
/// up to the length of the list.
pub proof fn lemma_label_counts_total(labels: Seq<Symbol>)
    ensures
        label_counts(labels).dom().finite(),
        sum_values(label_counts(labels)) == labels.len(),
    decreases labels.len(),
{
    if labels.len() == 0 {
        assert(label_counts(labels).dom() =~= Set::empty());
    } else {
        let front = labels.drop_last();
        let last = labels.last();
        assert(labels =~= front.push(last));
        lemma_label_counts_total(front);
        lemma_label_counts_push(front, last);
        lemma_sum_values_insert(label_counts(front), last, (occurrences(front, last) + 1) as int);
    }
}

/// The statistics of a ledger without records: both totals are zero and no
/// label has a count.
pub proof fn lemma_summary_of_nothing()
    ensures
        summary(Seq::empty()).total_donations == 0,
        summary(Seq::empty()).total_amount == 0,
        forall|label: Symbol| !summary(Seq::empty()).category_stats.contains_key(label),
        forall|label: Symbol| !summary(Seq::empty()).region_stats.contains_key(label),
{
}

/// The statistics of a ledger with one more record are the statistics of the
/// ledger with that record counted in.
pub proof fn lemma_summary_push(ledger: Seq<Donation>, donation: Donation)
    ensures
        summary(ledger.push(donation)) == summary(ledger).with(donation),
{
    let longer = ledger.push(donation);
    assert(longer.drop_last() =~= ledger);
    assert(categories(longer) =~= categories(ledger).push(donation.category));
    assert(regions(longer) =~= regions(ledger).push(donation.region));
    lemma_label_counts_push(categories(ledger), donation.category);
    lemma_label_counts_push(regions(ledger), donation.region);
}

/// The total amount looks at nothing but the amounts.
pub proof fn lemma_sum_amounts_same(a: Seq<Donation>, b: Seq<Donation>)
    requires
        a.len() == b.len(),
        forall|i: int| 0 <= i < a.len() ==> a[i].amount == b[i].amount,
    ensures
        sum_amounts(a) == sum_amounts(b),
    decreases a.len(),
{
    if a.len() > 0 {
        lemma_sum_amounts_same(a.drop_last(), b.drop_last());
    }
}

/// Confirming a delivery leaves the statistics as they were.
pub proof fn lemma_summary_delivered(ledger: Seq<Donation>, index: int, nft_id: Symbol)
    requires
        0 <= index < ledger.len(),
    ensures
        summary(ledger.update(index, ledger[index].delivered_with(nft_id))) == summary(ledger),
{
    let changed = ledger.update(index, ledger[index].delivered_with(nft_id));
    lemma_sum_amounts_same(changed, ledger);
    assert(categories(changed) =~= categories(ledger));
    assert(regions(changed) =~= regions(ledger));
}

/// The total of two lists laid end to end is the sum of their totals.
pub proof fn lemma_sum_amounts_add(a: Seq<Donation>, b: Seq<Donation>)
    ensures
        sum_amounts(a + b) == sum_amounts(a) + sum_amounts(b),
    decreases b.len(),
{
    if b.len() == 0 {
        assert(a + b =~= a);
    } else {
        assert((a + b).drop_last() =~= a + b.drop_last());
        lemma_sum_amounts_add(a, b.drop_last());
    }
}

/// Whatever donations are recorded on top of a ledger, the number of donations
/// grows by the number recorded, and the total amount by the sum of their
/// amounts. On an empty ledger the two totals are therefore the number of
/// donations recorded and the sum of their amounts.
pub proof fn lemma_totals_follow_recording(ledger: Seq<Donation>, recorded: Seq<Donation>)
    ensures
        summary(ledger + recorded).total_donations == summary(ledger).total_donations
            + recorded.len(),
        summary(ledger + recorded).total_amount == summary(ledger).total_amount + sum_amounts(
            recorded,
        ),
        summary(recorded).total_donations == recorded.len(),
        summary(recorded).total_amount == sum_amounts(recorded),
{
    lemma_sum_amounts_add(ledger, recorded);
}

/// What recording one donation does, whatever the ledger holds: the record
/// stands at the next index, the number of donations grows by one and the
/// total amount by the amount of the record, and the counts by category and
/// by region add up to the number of donations as before.
pub proof fn lemma_recording(ledger: Seq<Donation>, donation: Donation)
    ensures
        ledger.push(donation).len() == ledger.len() + 1,
        ledger.push(donation)[ledger.len() as int] == donation,
        summary(ledger.push(donation)).total_donations == summary(ledger).total_donations + 1,
        summary(ledger.push(donation)).total_amount == summary(ledger).total_amount
            + donation.amount,
        sum_values(summary(ledger.push(donation)).category_stats) == summary(
            ledger.push(donation),
        ).total_donations,
        sum_values(summary(ledger.push(donation)).region_stats) == summary(
            ledger.push(donation),
        ).total_donations,
{
    lemma_summary_push(ledger, donation);
    lemma_counts_add_up(ledger.push(donation));
}

/// In the statistics of any ledger, the counts by category add up to the
/// number of donations, and so do the counts by region.
pub proof fn lemma_counts_add_up(ledger: Seq<Donation>)
    ensures
        summary(ledger).category_stats.dom().finite(),
        summary(ledger).region_stats.dom().finite(),
        sum_values(summary(ledger).category_stats) == summary(ledger).total_donations,
        sum_values(summary(ledger).region_stats) == summary(ledger).total_donations,
{
    lemma_label_counts_total(categories(ledger));
    lemma_label_counts_total(regions(ledger));
}

} // verus!
