//! Grouping data points by category and summing their values.

use crate::record::{DataPoint, Record};
use crate::summary::{
    amount_of, distinct_keys, has_key, lemma_with_added, place_of, sum_of, with_added, Entries,
    Summary,
};
use vstd::prelude::*;

verus! {

/// The sum of the values of all records.
pub open spec fn total_value(records: Seq<Record>) -> int
    decreases records.len(),
{
    if records.len() == 0 {
        0
    } else {
        total_value(records.drop_last()) + records.last().value
    }
}

/// The sum of the values of the records whose category is `category`.
pub open spec fn category_total(records: Seq<Record>, category: Seq<char>) -> int
    decreases records.len(),
{
    if records.len() == 0 {
        0
    } else {
        category_total(records.drop_last(), category) + if records.last().category == category {
            records.last().value
        } else {
            0
        }
    }
}

/// Some record has the category `category`.
pub open spec fn has_category(records: Seq<Record>, category: Seq<char>) -> bool {
    exists|i: int| 0 <= i < records.len() && (#[trigger] records[i]).category == category
}

/// The categories of the records, each once, in the order in which they
/// first occur.
pub open spec fn categories(records: Seq<Record>) -> Seq<Seq<char>>
    decreases records.len(),
{
    if records.len() == 0 {
        Seq::empty()
    } else {
        let earlier = categories(records.drop_last());
        if earlier.contains(records.last().category) {
            earlier
        } else {
            earlier.push(records.last().category)
        }
    }
}

/// The records grouped by category: each category once, in the order of
/// first occurrence, with the sum of the values of its records.
pub open spec fn grouped(records: Seq<Record>) -> Entries {
    let labels = categories(records);
    Seq::new(labels.len(), |i: int| (labels[i], category_total(records, labels[i])))
}

/// Every value fits in 64 bits.
pub open spec fn values_in_range(records: Seq<Record>) -> bool {
    forall|i: int|
        0 <= i < records.len() ==> i64::MIN <= (#[trigger] records[i]).value <= i64::MAX
}

/// No records group to no entries.
pub proof fn lemma_grouped_empty()
    ensures
        grouped(Seq::<Record>::empty()) == Entries::empty(),
{
    assert(grouped(Seq::<Record>::empty()) =~= Entries::empty());
}

/// The categories hold each label once, and exactly the labels that some
/// record has.
pub proof fn lemma_categories(records: Seq<Record>)
    ensures
        categories(records).no_duplicates(),
        forall|c: Seq<char>|
            #![trigger categories(records).contains(c)]
            #![trigger has_category(records, c)]
            categories(records).contains(c) <==> has_category(records, c),
    decreases records.len(),
{
    if records.len() > 0 {
        let before = records.drop_last();
        let last = records.last();
        let earlier = categories(before);
        let labels = categories(records);
        lemma_categories(before);
        assert forall|c: Seq<char>| labels.contains(c) <==> has_category(records, c) by {
            if labels.contains(c) {
                let i = choose|i: int| 0 <= i < labels.len() && labels[i] == c;
                if i < earlier.len() {
                    assert(earlier[i] == c);
                    assert(categories(before).contains(c));
                    assert(has_category(before, c));
                    let j = choose|j: int|
                        0 <= j < before.len() && (#[trigger] before[j]).category == c;
                    assert(records[j].category == c);
                } else {
                    assert(records[records.len() - 1].category == c);
                }
            }
            if has_category(records, c) {
                let j = choose|j: int|
                    0 <= j < records.len() && (#[trigger] records[j]).category == c;
                if j < before.len() {
                    assert(before[j].category == c);
                    assert(has_category(before, c));
                    assert(categories(before).contains(c));
                    let i = choose|i: int| 0 <= i < earlier.len() && earlier[i] == c;
                    assert(labels[i] == c);
                } else if earlier.contains(c) {
                    let i = choose|i: int| 0 <= i < earlier.len() && earlier[i] == c;
                    assert(labels[i] == c);
                } else {
                    assert(labels[labels.len() - 1] == c);
                }
            }
        }
    }
}

/// A category that no record has sums to zero.
pub proof fn lemma_absent_category(records: Seq<Record>, category: Seq<char>)
    requires
        !has_category(records, category),
    ensures
        category_total(records, category) == 0,
    decreases records.len(),
{
    if records.len() > 0 {
        let before = records.drop_last();
        assert(!has_category(before, category)) by {
            if has_category(before, category) {
                let j = choose|j: int|
                    0 <= j < before.len() && (#[trigger] before[j]).category == category;
                assert(records[j].category == category);
            }
        }
        lemma_absent_category(before, category);
        assert(records[records.len() - 1].category != category);
    }
}

/// A category's sum lies within the number of records times the range of
/// one value.
pub proof fn lemma_category_total_range(records: Seq<Record>, category: Seq<char>)
    requires
        values_in_range(records),
    ensures
        records.len() * i64::MIN <= category_total(records, category) <= records.len() * i64::MAX,
    decreases records.len(),
{
    if records.len() > 0 {
        let before = records.drop_last();
        assert(values_in_range(before)) by {
            assert forall|i: int| 0 <= i < before.len() implies i64::MIN <= (
            #[trigger] before[i]).value <= i64::MAX by {
                assert(before[i] == records[i]);
            }
        }
        lemma_category_total_range(before, category);
        assert(i64::MIN <= records[records.len() - 1].value <= i64::MAX);
    }
}

/// The grouped entries have distinct keys, their keys are the categories
/// that some record has, and each amount is the sum for its category.
pub proof fn lemma_grouped(records: Seq<Record>)
    ensures
        distinct_keys(grouped(records)),
        forall|c: Seq<char>|
            #![trigger has_key(grouped(records), c)]
            #![trigger has_category(records, c)]
            has_key(grouped(records), c) <==> has_category(records, c),
        forall|c: Seq<char>|
            #![trigger amount_of(grouped(records), c)]
            #![trigger category_total(records, c)]
            amount_of(grouped(records), c) == category_total(records, c),
{
    let labels = categories(records);
    let groups = grouped(records);
    lemma_categories(records);
    assert forall|c: Seq<char>| has_key(groups, c) <==> #[trigger] labels.contains(c) by {
        if has_key(groups, c) {
            let i = place_of(groups, c);
            assert(groups[i].0 == c);
            assert(labels[i] == c);
        }
        if labels.contains(c) {
            let i = choose|i: int| 0 <= i < labels.len() && labels[i] == c;
            assert(groups[i].0 == c);
        }
    }
    assert forall|c: Seq<char>| amount_of(groups, c) == category_total(records, c) by {
        if has_key(groups, c) {
            let i = place_of(groups, c);
            assert(groups[i].0 == c);
        } else {
            lemma_absent_category(records, c);
        }
    }
}

/// Grouping one more record is adding its value under its category.
pub proof fn lemma_grouped_push(records: Seq<Record>, next: Record)
    ensures
        grouped(records.push(next)) == with_added(grouped(records), next.category, next.value),
{
    let more = records.push(next);
    let groups = grouped(records);
    let labels = categories(records);
    assert(more.drop_last() =~= records);
    assert(more.last() == next);
    lemma_grouped(records);
    lemma_categories(records);
    if has_key(groups, next.category) {
        let p = place_of(groups, next.category);
        assert(groups[p].0 == next.category);
        assert(labels[p] == next.category);
        assert(labels.contains(next.category));
        assert(grouped(more) =~= with_added(groups, next.category, next.value));
    } else {
        assert(!has_category(records, next.category));
        assert(!labels.contains(next.category));
        lemma_absent_category(records, next.category);
        assert(grouped(more) =~= with_added(groups, next.category, next.value));
    }
}

/// The totals of all categories add up to the sum of all values.
pub proof fn lemma_totals_add_up(records: Seq<Record>)
    ensures
        sum_of(grouped(records)) == total_value(records),
    decreases records.len(),
{
    if records.len() == 0 {
        assert(records =~= Seq::<Record>::empty());
        lemma_grouped_empty();
    } else {
        let before = records.drop_last();
        let last = records.last();
        lemma_totals_add_up(before);
        assert(before.push(last) =~= records);
        lemma_grouped_push(before, last);
        lemma_grouped(before);
        lemma_with_added(grouped(before), last.category, last.value);
    }
}

/// Groups the data points by category and sums the values of each group.
/// The categories come out in the order in which they first occur.
pub fn aggregate(records: &Vec<DataPoint>) -> (summary: Summary)
    ensures
        summary.entries() == grouped(records.deep_view()),
        forall|c: Seq<char>| summary@.contains_key(c) <==> has_category(records.deep_view(), c),
        forall|c: Seq<char>|
            has_category(records.deep_view(), c) ==> summary@[c] == category_total(
                records.deep_view(),
                c,
            ),
        summary.total() == total_value(records.deep_view()),
        records.len() == 0 ==> summary.entries() == Entries::empty(),
{
    let ghost all = records.deep_view();
    let mut summary = Summary::new();
    let mut i: usize = 0;
    proof {
        assert(all.take(0) =~= Seq::<Record>::empty());
        lemma_grouped_empty();
    }
    while i < records.len()
        invariant
            i <= records.len(),
            all == records.deep_view(),
            summary.entries() == grouped(all.take(i as int)),
        decreases records.len() - i,
    {
        let point = &records[i];
        proof {
            let seen = all.take(i as int);
            assert(all[i as int] == point@);
            assert(seen.push(point@) =~= all.take(i + 1));
            lemma_grouped_push(seen, point@);
            lemma_grouped(seen);
            assert(values_in_range(seen));
            lemma_category_total_range(seen, point.category@);
        }
        summary.add(point.category.clone(), point.value as i128);
        i += 1;
    }
    proof {
        assert(all.take(i as int) =~= all);
        lemma_grouped(all);
        lemma_totals_add_up(all);
        if records.len() == 0 {
            assert(all =~= Seq::<Record>::empty());
        }
    }
    summary
}

} // verus!
