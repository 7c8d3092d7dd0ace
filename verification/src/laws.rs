//! What holds of the statistics of every population, proved from their
//! definition.

use crate::record::{in_window, record_of, records_of, Outcome, Profile, Record};
use crate::stats::{rate_of, Counts};
use crate::summary::{
    admitted, by_plan, close_to, entry, plan_counts, rejected, sum_accepted, sum_total,
    summarize, tally_of, under,
};
use crate::types::{group, App, Apps, TypeName, SAT};
use vstd::prelude::*;

verus! {

/// Filtering a sequence that ends in `last` filters what stands before
/// it, and keeps `last` where the filter admits it.
pub proof fn lemma_filter_push<A>(items: Seq<A>, last: A, keep: spec_fn(A) -> bool)
    ensures
        items.push(last).filter(keep) == if keep(last) {
            items.filter(keep).push(last)
        } else {
            items.filter(keep)
        },
{
    reveal(Seq::filter);
    assert(items.push(last).drop_last() == items);
}

/// What one more record does to the counts of each plan: the plan it was
/// submitted under gains one application, and one admission where the
/// record ended in admission; every other plan stays as it was.
pub proof fn lemma_plan_counts_push(records: Seq<Record>, last: Record, plan: TypeName)
    ensures
        plan_counts(records.push(last), plan).total == plan_counts(records, plan).total
            + if last.decision_type == plan {
            1nat
        } else {
            0nat
        },
        plan_counts(records.push(last), plan).accepted == plan_counts(records, plan).accepted
            + if last.decision_type == plan && last.outcome.admitted() {
            1nat
        } else {
            0nat
        },
{
    lemma_filter_push(records, last, under(plan));
    lemma_filter_push(records.filter(under(plan)), last, admitted());
}

/// The admissions of a population never exceed its records.
pub proof fn lemma_tally_consistent(records: Seq<Record>)
    ensures
        tally_of(records).accepted <= tally_of(records).total,
{
    records.lemma_filter_len(admitted());
}

/// The entry of a plan, present or not, holds the counts of the records
/// submitted under that plan.
pub proof fn lemma_entry_is_tally(records: Seq<Record>, plan: TypeName)
    ensures
        entry(by_plan(records), plan) == plan_counts(records, plan),
{
    let part = records.filter(under(plan));
    if part.len() == 0 {
        part.lemma_filter_len(admitted());
    }
}

/// Every record is counted under exactly one plan: the counts of the plans
/// add up to the counts of the whole population.
pub proof fn lemma_plans_sum_to_whole(records: Seq<Record>)
    ensures
        sum_total(by_plan(records)) == tally_of(records).total,
        sum_accepted(by_plan(records)) == tally_of(records).accepted,
{
    lemma_sum_is_spread(records);
    lemma_spread_whole(records);
}

/// The applications of each plan, added up plan by plan.
spec fn spread_total(records: Seq<Record>) -> nat {
    plan_counts(records, TypeName::REA).total + plan_counts(records, TypeName::EA).total
        + plan_counts(records, TypeName::EA2).total + plan_counts(records, TypeName::ED).total
        + plan_counts(records, TypeName::ED2).total + plan_counts(records, TypeName::RD).total
        + plan_counts(records, TypeName::ROLL).total + plan_counts(records, TypeName::OTH).total
        + plan_counts(records, TypeName::Unknown).total
}

/// The admissions of each plan, added up plan by plan.
spec fn spread_accepted(records: Seq<Record>) -> nat {
    plan_counts(records, TypeName::REA).accepted + plan_counts(records, TypeName::EA).accepted
        + plan_counts(records, TypeName::EA2).accepted + plan_counts(
        records,
        TypeName::ED,
    ).accepted + plan_counts(records, TypeName::ED2).accepted + plan_counts(
        records,
        TypeName::RD,
    ).accepted + plan_counts(records, TypeName::ROLL).accepted + plan_counts(
        records,
        TypeName::OTH,
    ).accepted + plan_counts(records, TypeName::Unknown).accepted
}

/// The sum over the entries of the table is the sum over the plans.
proof fn lemma_sum_is_spread(records: Seq<Record>)
    ensures
        sum_total(by_plan(records)) == spread_total(records),
        sum_accepted(by_plan(records)) == spread_accepted(records),
{
    lemma_entry_is_tally(records, TypeName::REA);
    lemma_entry_is_tally(records, TypeName::EA);
    lemma_entry_is_tally(records, TypeName::EA2);
    lemma_entry_is_tally(records, TypeName::ED);
    lemma_entry_is_tally(records, TypeName::ED2);
    lemma_entry_is_tally(records, TypeName::RD);
    lemma_entry_is_tally(records, TypeName::ROLL);
    lemma_entry_is_tally(records, TypeName::OTH);
    lemma_entry_is_tally(records, TypeName::Unknown);
}

/// One more record adds one application to the sum over the plans, and
/// one admission where it ended in admission.
proof fn lemma_spread_push(front: Seq<Record>, last: Record)
    ensures
        spread_total(front.push(last)) == spread_total(front) + 1,
        spread_accepted(front.push(last)) == spread_accepted(front) + if last.outcome.admitted() {
            1nat
        } else {
            0nat
        },
{
    lemma_plan_counts_push(front, last, TypeName::REA);
    lemma_plan_counts_push(front, last, TypeName::EA);
    lemma_plan_counts_push(front, last, TypeName::EA2);
    lemma_plan_counts_push(front, last, TypeName::ED);
    lemma_plan_counts_push(front, last, TypeName::ED2);
    lemma_plan_counts_push(front, last, TypeName::RD);
    lemma_plan_counts_push(front, last, TypeName::ROLL);
    lemma_plan_counts_push(front, last, TypeName::OTH);
    lemma_plan_counts_push(front, last, TypeName::Unknown);
}

/// An empty population has no record under any plan.
pub proof fn lemma_spread_empty(plan: TypeName)
    ensures
        plan_counts(Seq::<Record>::empty(), plan) == (Counts { accepted: 0, total: 0 }),
{
    let none = Seq::<Record>::empty();
    none.lemma_filter_len(under(plan));
    none.filter(under(plan)).lemma_filter_len(admitted());
}

/// The sum over the plans counts every record once.
proof fn lemma_spread_whole(records: Seq<Record>)
    ensures
        spread_total(records) == records.len(),
        spread_accepted(records) == records.filter(admitted()).len(),
    decreases records.len(),
{
    if records.len() == 0 {
        assert(records == Seq::<Record>::empty());
        lemma_spread_empty(TypeName::REA);
        lemma_spread_empty(TypeName::EA);
        lemma_spread_empty(TypeName::EA2);
        lemma_spread_empty(TypeName::ED);
        lemma_spread_empty(TypeName::ED2);
        lemma_spread_empty(TypeName::RD);
        lemma_spread_empty(TypeName::ROLL);
        lemma_spread_empty(TypeName::OTH);
        lemma_spread_empty(TypeName::Unknown);
        records.lemma_filter_len(admitted());
    } else {
        let front = records.drop_last();
        let last = records.last();
        assert(records == front.push(last));
        lemma_spread_whole(front);
        lemma_spread_push(front, last);
        lemma_filter_push(front, last, admitted());
    }
}

/// Every record is either admitted or rejected and never both, so the
/// admitted and the rejected records together are the whole population.
pub proof fn lemma_population_partition(records: Seq<Record>)
    ensures
        forall|i: int|
            0 <= i < records.len() ==> (#[trigger] records[i]).outcome.admitted()
                != records[i].outcome.rejected(),
        records.filter(admitted()).len() + records.filter(rejected()).len() == records.len(),
    decreases records.len(),
{
    if records.len() == 0 {
        records.lemma_filter_len(admitted());
        records.lemma_filter_len(rejected());
    } else {
        let front = records.drop_last();
        let last = records.last();
        assert(records == front.push(last));
        lemma_population_partition(front);
        lemma_filter_push(front, last, admitted());
        lemma_filter_push(front, last, rejected());
    }
}

/// In every report the counts by plan add up to the overall counts, for
/// the whole population and for the records close to the profile alike.
pub proof fn lemma_category_sums(records: Seq<Record>, profile: Option<Profile>)
    ensures
        sum_total(summarize(records, profile).per_category) == summarize(
            records,
            profile,
        ).overall.total,
        sum_accepted(summarize(records, profile).per_category) == summarize(
            records,
            profile,
        ).overall.accepted,
        sum_total(summarize(records, profile).boxed_per_category) == summarize(
            records,
            profile,
        ).boxed_overall.total,
        sum_accepted(summarize(records, profile).boxed_per_category) == summarize(
            records,
            profile,
        ).boxed_overall.accepted,
{
    lemma_plans_sum_to_whole(records);
    lemma_plans_sum_to_whole(records.filter(close_to(profile)));
}

/// In every report the admissions do not exceed the applications, and the
/// records close to the profile do not exceed the whole population.
pub proof fn lemma_counts_bounded(records: Seq<Record>, profile: Option<Profile>)
    ensures
        summarize(records, profile).overall.accepted <= summarize(records, profile).overall.total,
        summarize(records, profile).boxed_overall.accepted <= summarize(
            records,
            profile,
        ).boxed_overall.total,
        summarize(records, profile).boxed_overall.total <= summarize(
            records,
            profile,
        ).overall.total,
        summarize(records, profile).overall.total == records.len(),
{
    lemma_tally_consistent(records);
    lemma_tally_consistent(records.filter(close_to(profile)));
    records.lemma_filter_len(close_to(profile));
}

/// With no records there is nothing to divide by: every count is zero, no
/// plan has an entry, and neither rate exists.
pub proof fn lemma_empty_population(profile: Option<Profile>)
    ensures
        summarize(Seq::empty(), profile).overall == (Counts { accepted: 0, total: 0 }),
        summarize(Seq::empty(), profile).boxed_overall == (Counts { accepted: 0, total: 0 }),
        rate_of(summarize(Seq::empty(), profile).overall) is None,
        rate_of(summarize(Seq::empty(), profile).boxed_overall) is None,
        summarize(Seq::empty(), profile).per_category =~= Map::empty(),
        summarize(Seq::empty(), profile).boxed_per_category =~= Map::empty(),
{
    let none = Seq::<Record>::empty();
    none.lemma_filter_len(admitted());
    none.lemma_filter_len(close_to(profile));
    let boxed = none.filter(close_to(profile));
    assert(boxed == none);
    assert forall|plan: TypeName| plan_counts(none, plan) == (Counts { accepted: 0, total: 0 }) by {
        lemma_spread_empty(plan);
    }
}

/// What one more record does to a report. It counts in the whole
/// population and under its own plan whatever it holds. It counts among
/// the records close to the profile only where it is close: a record that
/// lacks its test score or its GPA leaves those counts as they were.
pub proof fn lemma_one_more_record(records: Seq<Record>, last: Record, profile: Option<Profile>)
    ensures
        summarize(records.push(last), profile).overall.total == summarize(
            records,
            profile,
        ).overall.total + 1,
        entry(summarize(records.push(last), profile).per_category, last.decision_type).total
            == entry(summarize(records, profile).per_category, last.decision_type).total + 1,
        !in_window(profile, last) ==> summarize(records.push(last), profile).boxed_overall
            == summarize(records, profile).boxed_overall && summarize(
            records.push(last),
            profile,
        ).boxed_per_category == summarize(records, profile).boxed_per_category,
        in_window(profile, last) ==> summarize(
            records.push(last),
            profile,
        ).boxed_overall.total == summarize(records, profile).boxed_overall.total + 1,
        last.test_score is None || last.gpa is None ==> !in_window(profile, last),
{
    lemma_filter_push(records, last, close_to(profile));
    lemma_plan_counts_push(records, last, last.decision_type);
    lemma_entry_is_tally(records, last.decision_type);
    lemma_entry_is_tally(records.push(last), last.decision_type);
}

/// Restricting a population first can only lower what a later filter
/// keeps of it.
proof fn lemma_narrowing(
    records: Seq<Record>,
    first: spec_fn(Record) -> bool,
    second: spec_fn(Record) -> bool,
    third: spec_fn(Record) -> bool,
)
    ensures
        records.filter(first).filter(second).len() <= records.filter(second).len(),
        records.filter(first).filter(second).filter(third).len() <= records.filter(second).filter(
            third,
        ).len(),
    decreases records.len(),
{
    if records.len() == 0 {
        records.lemma_filter_len(first);
        records.filter(first).lemma_filter_len(second);
        records.filter(first).filter(second).lemma_filter_len(third);
    } else {
        let front = records.drop_last();
        let last = records.last();
        assert(records == front.push(last));
        lemma_narrowing(front, first, second, third);
        lemma_filter_push(front, last, first);
        lemma_filter_push(front, last, second);
        lemma_filter_push(front.filter(first), last, second);
        lemma_filter_push(front.filter(second), last, third);
        lemma_filter_push(front.filter(first).filter(second), last, third);
    }
}

/// The records close to the profile are part of the whole population, plan
/// by plan: no plan has more applications or more admissions among them
/// than it has in the whole, and a plan with an entry among them has one
/// in the whole.
pub proof fn lemma_boxed_within_whole(
    records: Seq<Record>,
    profile: Option<Profile>,
    plan: TypeName,
)
    ensures
        entry(summarize(records, profile).boxed_per_category, plan).total <= entry(
            summarize(records, profile).per_category,
            plan,
        ).total,
        entry(summarize(records, profile).boxed_per_category, plan).accepted <= entry(
            summarize(records, profile).per_category,
            plan,
        ).accepted,
        summarize(records, profile).boxed_per_category.contains_key(plan) ==> summarize(
            records,
            profile,
        ).per_category.contains_key(plan),
{
    lemma_narrowing(records, close_to(profile), under(plan), admitted());
    lemma_entry_is_tally(records, plan);
    lemma_entry_is_tally(records.filter(close_to(profile)), plan);
}

/// An application that names no decision plan is not dropped: its record
/// counts under `Unknown` and in the whole population.
pub proof fn lemma_untagged_counts_as_unknown(
    records: Seq<Record>,
    app: App<SAT>,
    outcome: Outcome,
    profile: Option<Profile>,
)
    requires
        app.decision_type is None,
    ensures
        record_of(app, outcome).decision_type == TypeName::Unknown,
        summarize(records.push(record_of(app, outcome)), profile).overall.total == summarize(
            records,
            profile,
        ).overall.total + 1,
        summarize(records.push(record_of(app, outcome)), profile).per_category.contains_key(
            TypeName::Unknown,
        ),
        summarize(records.push(record_of(app, outcome)), profile).per_category[TypeName::Unknown].total
            == entry(summarize(records, profile).per_category, TypeName::Unknown).total + 1,
{
    lemma_one_more_record(records, record_of(app, outcome), profile);
}

/// The records of one group all ended alike: a filter by how records ended
/// keeps the whole group or none of it.
proof fn lemma_group_ends_alike(apps: Seq<App<SAT>>, outcome: Outcome)
    ensures
        records_of(apps, outcome).len() == apps.len(),
        records_of(apps, outcome).filter(admitted()).len() == if outcome.admitted() {
            apps.len()
        } else {
            0
        },
        records_of(apps, outcome).filter(rejected()).len() == if outcome.rejected() {
            apps.len()
        } else {
            0
        },
    decreases apps.len(),
{
    let records = records_of(apps, outcome);
    if apps.len() == 0 {
        records.lemma_filter_len(admitted());
        records.lemma_filter_len(rejected());
    } else {
        let front = apps.drop_last();
        let last = record_of(apps.last(), outcome);
        assert(records == records_of(front, outcome).push(last));
        lemma_group_ends_alike(front, outcome);
        lemma_filter_push(records_of(front, outcome), last, admitted());
        lemma_filter_push(records_of(front, outcome), last, rejected());
    }
}

/// The records of a school's applications are split as the applications
/// are: there is one record for each application, as many records ended
/// in admission as [`Apps::accepted`] lists, and as many did not as
/// [`Apps::denied`] lists.
pub proof fn lemma_records_follow_groups(apps: Apps<SAT>)
    ensures
        apps.spec_records().len() == apps.spec_all().len(),
        apps.spec_records().filter(admitted()).len() == apps.spec_accepted().len(),
        apps.spec_records().filter(rejected()).len() == apps.spec_denied().len(),
        apps.spec_all().len() == apps.spec_accepted().len() + apps.spec_denied().len(),
{
    let a = records_of(group(apps.accepted), Outcome::Accepted);
    let b = records_of(group(apps.waitlisted_accepted), Outcome::WaitlistedAccepted);
    let c = records_of(group(apps.denied), Outcome::Denied);
    let d = records_of(group(apps.waitlisted_unknown), Outcome::WaitlistedUnknown);
    let e = records_of(group(apps.waitlisted_denied), Outcome::WaitlistedDenied);
    lemma_group_ends_alike(group(apps.accepted), Outcome::Accepted);
    lemma_group_ends_alike(group(apps.waitlisted_accepted), Outcome::WaitlistedAccepted);
    lemma_group_ends_alike(group(apps.denied), Outcome::Denied);
    lemma_group_ends_alike(group(apps.waitlisted_unknown), Outcome::WaitlistedUnknown);
    lemma_group_ends_alike(group(apps.waitlisted_denied), Outcome::WaitlistedDenied);
    Seq::filter_distributes_over_add(a, b, admitted());
    Seq::filter_distributes_over_add(a + b, c, admitted());
    Seq::filter_distributes_over_add(a + b + c, d, admitted());
    Seq::filter_distributes_over_add(a + b + c + d, e, admitted());
    Seq::filter_distributes_over_add(a, b, rejected());
    Seq::filter_distributes_over_add(a + b, c, rejected());
    Seq::filter_distributes_over_add(a + b + c, d, rejected());
    Seq::filter_distributes_over_add(a + b + c + d, e, rejected());
}

} // verus!
