//! The statistics report of one school and the aggregation that
//! produces it.

use crate::laws::{
    lemma_filter_push, lemma_plan_counts_push, lemma_plans_sum_to_whole, lemma_spread_empty,
    lemma_tally_consistent,
};
use crate::record::{window_of, Profile, Record};
use crate::stats::{Counts, Tally};
use crate::summary::{
    by_plan, close_to, entry, plan_counts, sum_accepted, sum_total, summarize, under, Summary,
};
use crate::types::{lemma_index_round_trip, ApplicationStatistics, TypeName, TYPE_NAME_COUNT};
use crate::Error;
use vstd::prelude::*;

verus! {

/// Acceptance counts by decision plan.
#[derive(Debug)]
pub struct CategoryTable {
    tallies: Vec<Tally>,
}

impl View for CategoryTable {
    type V = Map<TypeName, Counts>;

    closed spec fn view(&self) -> Map<TypeName, Counts> {
        Map::new(
            |plan: TypeName| self.tallies@[plan.spec_index()]@.total > 0,
            |plan: TypeName| self.tallies@[plan.spec_index()]@,
        )
    }
}

impl CategoryTable {
    #[verifier::type_invariant]
    spec fn well_formed(self) -> bool {
        &&& self.tallies@.len() == TYPE_NAME_COUNT
        &&& sum_total(self@) <= u64::MAX
    }

    /// The counts of `plan`; none where no application was submitted
    /// under it.
    pub fn get(&self, plan: TypeName) -> (found: Option<Tally>)
        ensures
            found is Some <==> self@.contains_key(plan),
            found is Some ==> found->0@ == self@[plan] && found->0@.total > 0,
    {
        proof {
            use_type_invariant(self);
        }
        let tally = self.tallies[plan.index()];
        if tally.total() > 0 {
            Some(tally)
        } else {
            None
        }
    }

    /// The plans that have an entry, each with its counts, in the fixed
    /// order of the plans.
    pub fn entries(&self) -> (out: Vec<(TypeName, Tally)>)
        ensures
            out@.map_values(|pair: (TypeName, Tally)| pair.0) == listed_plans(
                self@,
                TYPE_NAME_COUNT as int,
            ),
            forall|i: int|
                0 <= i < out@.len() ==> self@.contains_key(#[trigger] out@[i].0) && out@[i].1@
                    == self@[out@[i].0],
    {
        proof {
            use_type_invariant(self);
        }
        let mut out: Vec<(TypeName, Tally)> = Vec::new();
        let mut k: usize = 0;
        assert(out@.map_values(|pair: (TypeName, Tally)| pair.0) == listed_plans(self@, 0));
        while k < TYPE_NAME_COUNT
            invariant
                k <= TYPE_NAME_COUNT,
                self.tallies@.len() == TYPE_NAME_COUNT,
                out@.map_values(|pair: (TypeName, Tally)| pair.0) == listed_plans(
                    self@,
                    k as int,
                ),
                forall|i: int|
                    0 <= i < out@.len() ==> self@.contains_key(#[trigger] out@[i].0)
                        && out@[i].1@ == self@[out@[i].0],
            decreases TYPE_NAME_COUNT - k,
        {
            let plan = match TypeName::from_index(k) {
                Some(plan) => plan,
                None => TypeName::Unknown,
            };
            let tally = self.tallies[k];
            let ghost prior = out@;
            if tally.total() > 0 {
                out.push((plan, tally));
                assert(prior.push((plan, tally)).map_values(|pair: (TypeName, Tally)| pair.0)
                    == prior.map_values(|pair: (TypeName, Tally)| pair.0).push(plan));
            }
            k = k + 1;
        }
        out
    }

    /// The counts of every plan together.
    pub fn sum(&self) -> (whole: Tally)
        ensures
            whole@ == (Counts { accepted: sum_accepted(self@), total: sum_total(self@) }),
    {
        proof {
            use_type_invariant(self);
        }
        let mut accepted: u64 = 0;
        let mut total: u64 = 0;
        let mut k: usize = 0;
        while k < TYPE_NAME_COUNT
            invariant
                k <= TYPE_NAME_COUNT,
                self.tallies@.len() == TYPE_NAME_COUNT,
                sum_total(self@) <= u64::MAX,
                total == total_upto(self@, k as int),
                accepted == accepted_upto(self@, k as int),
                accepted <= total,
                total_upto(self@, k as int) <= sum_total(self@),
            decreases TYPE_NAME_COUNT - k,
        {
            let tally = self.tallies[k];
            proof {
                lemma_index_round_trip(TypeName::Unknown, k as int);
                lemma_upto_bounded(self@, k as int + 1);
            }
            accepted = accepted + tally.accepted();
            total = total + tally.total();
            k = k + 1;
        }
        proof {
            lemma_upto_is_sum(self@);
        }
        Tally::of(accepted, total)
    }
}

/// The plans among the first `n` of the fixed order that have an entry in
/// `table`, in that order.
pub open spec fn listed_plans(table: Map<TypeName, Counts>, n: int) -> Seq<TypeName>
    decreases n,
{
    if n <= 0 {
        Seq::empty()
    } else {
        let plan = TypeName::spec_from_index(n - 1);
        if table.contains_key(plan) {
            listed_plans(table, n - 1).push(plan)
        } else {
            listed_plans(table, n - 1)
        }
    }
}

/// The applications of the first `n` plans of the fixed order.
spec fn total_upto(table: Map<TypeName, Counts>, n: int) -> nat
    decreases n,
{
    if n <= 0 {
        0
    } else {
        total_upto(table, n - 1) + entry(table, TypeName::spec_from_index(n - 1)).total
    }
}

/// The admissions of the first `n` plans of the fixed order.
spec fn accepted_upto(table: Map<TypeName, Counts>, n: int) -> nat
    decreases n,
{
    if n <= 0 {
        0
    } else {
        accepted_upto(table, n - 1) + entry(table, TypeName::spec_from_index(n - 1)).accepted
    }
}

/// The sum over all the plans of the fixed order is the sum over the
/// table.
proof fn lemma_upto_is_sum(table: Map<TypeName, Counts>)
    ensures
        total_upto(table, TYPE_NAME_COUNT as int) == sum_total(table),
        accepted_upto(table, TYPE_NAME_COUNT as int) == sum_accepted(table),
{
    reveal_with_fuel(total_upto, 10);
    reveal_with_fuel(accepted_upto, 10);
}

/// The sum over the first plans does not exceed the sum over all.
proof fn lemma_upto_bounded(table: Map<TypeName, Counts>, n: int)
    requires
        0 <= n <= TYPE_NAME_COUNT,
    ensures
        total_upto(table, n) <= sum_total(table),
    decreases TYPE_NAME_COUNT - n,
{
    if n < TYPE_NAME_COUNT {
        lemma_upto_bounded(table, n + 1);
    } else {
        lemma_upto_is_sum(table);
    }
}

/// The statistics of one school for one student.
#[derive(Debug)]
pub struct Report {
    overall: Tally,
    per_category: CategoryTable,
    boxed_overall: Tally,
    boxed_per_category: CategoryTable,
}

impl View for Report {
    type V = Summary;

    closed spec fn view(&self) -> Summary {
        Summary {
            overall: self.overall@,
            per_category: self.per_category@,
            boxed_overall: self.boxed_overall@,
            boxed_per_category: self.boxed_per_category@,
        }
    }
}

impl Report {
    /// The counts of the whole population.
    pub fn overall(&self) -> (tally: Tally)
        ensures
            tally@ == self@.overall,
    {
        self.overall
    }

    /// The counts of the whole population by decision plan.
    pub fn per_category(&self) -> (table: &CategoryTable)
        ensures
            table@ == self@.per_category,
    {
        &self.per_category
    }

    /// The counts of the records close to the student's profile.
    pub fn boxed_overall(&self) -> (tally: Tally)
        ensures
            tally@ == self@.boxed_overall,
    {
        self.boxed_overall
    }

    /// The counts of the records close to the student's profile, by
    /// decision plan.
    pub fn boxed_per_category(&self) -> (table: &CategoryTable)
        ensures
            table@ == self@.boxed_per_category,
    {
        &self.boxed_per_category
    }
}

/// Counts `records` by decision plan.
fn tabulate(records: &Vec<Record>) -> (table: CategoryTable)
    ensures
        table@ == by_plan(records@),
{
    let mut totals: Vec<u64> = Vec::new();
    let mut accepted: Vec<u64> = Vec::new();
    let mut k: usize = 0;
    while k < TYPE_NAME_COUNT
        invariant
            k <= TYPE_NAME_COUNT,
            totals@.len() == k,
            accepted@.len() == k,
            forall|j: int| 0 <= j < k ==> #[trigger] totals@[j] == 0,
            forall|j: int| 0 <= j < k ==> #[trigger] accepted@[j] == 0,
        decreases TYPE_NAME_COUNT - k,
    {
        totals.push(0);
        accepted.push(0);
        k = k + 1;
    }
    proof {
        assert(records@.take(0) == Seq::<Record>::empty());
        assert forall|j: int| 0 <= j < TYPE_NAME_COUNT implies plan_counts(
            records@.take(0),
            #[trigger] TypeName::spec_from_index(j),
        ) == (Counts { accepted: 0, total: 0 }) by {
            lemma_spread_empty(TypeName::spec_from_index(j));
        }
    }
    let mut i: usize = 0;
    while i < records.len()
        invariant
            i <= records@.len(),
            totals@.len() == TYPE_NAME_COUNT,
            accepted@.len() == TYPE_NAME_COUNT,
            forall|j: int|
                0 <= j < TYPE_NAME_COUNT ==> totals@[j] == plan_counts(
                    records@.take(i as int),
                    #[trigger] TypeName::spec_from_index(j),
                ).total,
            forall|j: int|
                0 <= j < TYPE_NAME_COUNT ==> accepted@[j] == plan_counts(
                    records@.take(i as int),
                    #[trigger] TypeName::spec_from_index(j),
                ).accepted,
        decreases records@.len() - i,
    {
        let record = records[i];
        let slot = record.decision_type.index();
        proof {
            let seen = records@.take(i as int);
            assert(records@.take(i + 1) == seen.push(record));
            assert forall|j: int| 0 <= j < TYPE_NAME_COUNT implies plan_counts(
                seen.push(record),
                #[trigger] TypeName::spec_from_index(j),
            ).total == plan_counts(seen, TypeName::spec_from_index(j)).total + if j == slot {
                1nat
            } else {
                0nat
            } && plan_counts(seen.push(record), TypeName::spec_from_index(j)).accepted
                == plan_counts(seen, TypeName::spec_from_index(j)).accepted + if j == slot
                && record.outcome.admitted() {
                1nat
            } else {
                0nat
            } by {
                lemma_plan_counts_push(seen, record, TypeName::spec_from_index(j));
                lemma_index_round_trip(record.decision_type, j);
            }
            seen.lemma_filter_len(under(record.decision_type));
            lemma_tally_consistent(seen.filter(under(record.decision_type)));
        }
        let total_before = totals[slot];
        totals.set(slot, total_before + 1);
        if record.outcome.is_admitted() {
            let accepted_before = accepted[slot];
            accepted.set(slot, accepted_before + 1);
        }
        i = i + 1;
    }
    assert(records@.take(records@.len() as int) == records@);
    let mut tallies: Vec<Tally> = Vec::new();
    let mut k: usize = 0;
    while k < TYPE_NAME_COUNT
        invariant
            k <= TYPE_NAME_COUNT,
            tallies@.len() == k,
            totals@.len() == TYPE_NAME_COUNT,
            accepted@.len() == TYPE_NAME_COUNT,
            forall|j: int|
                0 <= j < TYPE_NAME_COUNT ==> totals@[j] == plan_counts(
                    records@,
                    #[trigger] TypeName::spec_from_index(j),
                ).total,
            forall|j: int|
                0 <= j < TYPE_NAME_COUNT ==> accepted@[j] == plan_counts(
                    records@,
                    #[trigger] TypeName::spec_from_index(j),
                ).accepted,
            forall|j: int|
                0 <= j < k ==> (#[trigger] tallies@[j])@ == plan_counts(
                    records@,
                    TypeName::spec_from_index(j),
                ),
        decreases TYPE_NAME_COUNT - k,
    {
        proof {
            lemma_tally_consistent(records@.filter(under(TypeName::spec_from_index(k as int))));
        }
        tallies.push(Tally::of(accepted[k], totals[k]));
        k = k + 1;
    }
    proof {
        let held = Map::new(
            |plan: TypeName| tallies@[plan.spec_index()]@.total > 0,
            |plan: TypeName| tallies@[plan.spec_index()]@,
        );
        assert forall|plan: TypeName| #[trigger]
            tallies@[plan.spec_index()]@ == plan_counts(records@, plan) by {
            lemma_index_round_trip(plan, 0);
        }
        assert(held =~= by_plan(records@));
        lemma_plans_sum_to_whole(records@);
    }
    CategoryTable { tallies }
}

/// The records of `records` that are close to `profile`, in order.
fn close_records(records: &Vec<Record>, profile: Option<Profile>) -> (out: Vec<Record>)
    ensures
        out@ == records@.filter(close_to(profile)),
{
    let window = match profile {
        Some(own) => own.window(),
        None => None,
    };
    let mut out: Vec<Record> = Vec::new();
    let mut i: usize = 0;
    proof {
        assert(records@.take(0) == Seq::<Record>::empty());
        Seq::<Record>::empty().lemma_filter_len(close_to(profile));
        assert(out@ == records@.take(0).filter(close_to(profile)));
    }
    while i < records.len()
        invariant
            i <= records@.len(),
            window == window_of(profile),
            out@ == records@.take(i as int).filter(close_to(profile)),
        decreases records@.len() - i,
    {
        let record = records[i];
        proof {
            assert(records@.take(i + 1) == records@.take(i as int).push(record));
            lemma_filter_push(records@.take(i as int), record, close_to(profile));
        }
        let close = match window {
            Some(bounds) => bounds.contains(&record),
            None => false,
        };
        if close {
            out.push(record);
        }
        i = i + 1;
    }
    assert(records@.take(records@.len() as int) == records@);
    out
}

/// Computes the statistics of `records` for a student with `profile`.
///
/// The whole population is counted overall and by decision plan. The
/// records close to the profile are counted in the same way; where the
/// profile is absent or lacks a value, or a record lacks one, nothing is
/// close. The overall counts of either population are the sums of its
/// counts by plan.
pub fn aggregate(records: &Vec<Record>, profile: Option<Profile>) -> (report: Report)
    ensures
        report@ == summarize(records@, profile),
        report@.overall.total == records@.len(),
        sum_total(report@.per_category) == report@.overall.total,
        sum_accepted(report@.per_category) == report@.overall.accepted,
        sum_total(report@.boxed_per_category) == report@.boxed_overall.total,
        sum_accepted(report@.boxed_per_category) == report@.boxed_overall.accepted,
{
    let per_category = tabulate(records);
    let overall = per_category.sum();
    let boxed = close_records(records, profile);
    let boxed_per_category = tabulate(&boxed);
    let boxed_overall = boxed_per_category.sum();
    proof {
        lemma_plans_sum_to_whole(records@);
        lemma_plans_sum_to_whole(boxed@);
    }
    Report { overall, per_category, boxed_overall, boxed_per_category }
}

/// The message of the error for an absent profile.
pub const NO_PROFILE: &'static str = "the student has no academic profile";

/// The message of the error for a profile without a test score.
pub const NO_TEST_SCORE: &'static str = "the student's profile has no test score";

/// The message of the error for a profile without a GPA.
pub const NO_GPA: &'static str = "the student's profile has no GPA";

/// The message that tells what `profile` lacks for a window; none where it
/// lacks nothing.
pub open spec fn profile_fault(profile: Option<Profile>) -> Option<Seq<char>> {
    match profile {
        None => Some(NO_PROFILE@),
        Some(own) => if own.test_score is None {
            Some(NO_TEST_SCORE@)
        } else if own.gpa is None {
            Some(NO_GPA@)
        } else {
            None
        },
    }
}

/// Computes the statistics of `records` as [`aggregate`] does, for a
/// caller that needs the statistics close to the profile: where the
/// profile is absent or lacks its test score or its GPA, this fails and
/// says which.
pub fn aggregate_boxed(records: &Vec<Record>, profile: Option<Profile>) -> (out: Result<
    Report,
    Error,
>)
    ensures
        out is Ok <==> window_of(profile) is Some,
        out is Ok <==> profile_fault(profile) is None,
        out is Ok ==> out->Ok_0@ == summarize(records@, profile),
        out is Err ==> (out->Err_0 matches Error::Precondition(message) && Some(message@)
            == profile_fault(profile)),
{
    match profile {
        None => Err(Error::Precondition(NO_PROFILE.to_owned())),
        Some(own) => {
            if own.test_score.is_none() {
                Err(Error::Precondition(NO_TEST_SCORE.to_owned()))
            } else if own.gpa.is_none() {
                Err(Error::Precondition(NO_GPA.to_owned()))
            } else {
                Ok(aggregate(records, profile))
            }
        },
    }
}

impl ApplicationStatistics {
    /// Whether the statistics hold applications plotted against the
    /// unweighted GPA. A school without them has nothing to report.
    pub open spec fn has_scattergram(&self) -> bool {
        self.scattergrams is Some && self.scattergrams->0.gpa is Some
    }

    /// The records of the applications on the SAT scale that are plotted
    /// against the unweighted GPA; none where there are no such
    /// applications.
    pub open spec fn spec_records(&self) -> Seq<Record> {
        match self.scattergrams {
            Some(scattergrams) => match scattergrams.gpa {
                Some(by_gpa) => match by_gpa.sat {
                    Some(by_sat) => match by_sat.apps {
                        Some(apps) => apps.spec_records(),
                        None => Seq::empty(),
                    },
                    None => Seq::empty(),
                },
                None => Seq::empty(),
            },
            None => Seq::empty(),
        }
    }

    /// The student's own profile: the SAT total and the unweighted
    /// cumulative GPA of the academic record; none where the statistics come
    /// without an academic record.
    pub open spec fn spec_profile(&self) -> Option<Profile> {
        match self.user_info {
            Some(info) => match info.academics {
                Some(academics) => Some(
                    Profile { test_score: academics.sat, gpa: academics.raw_cumulative_gpa },
                ),
                None => None,
            },
            None => None,
        }
    }

    /// The records that the statistics are computed from.
    pub fn records(&self) -> (out: Vec<Record>)
        ensures
            out@ == self.spec_records(),
    {
        match &self.scattergrams {
            Some(scattergrams) => match &scattergrams.gpa {
                Some(by_gpa) => match &by_gpa.sat {
                    Some(by_sat) => match &by_sat.apps {
                        Some(apps) => apps.records(),
                        None => Vec::new(),
                    },
                    None => Vec::new(),
                },
                None => Vec::new(),
            },
            None => Vec::new(),
        }
    }

    /// The student's own profile.
    pub fn profile(&self) -> (out: Option<Profile>)
        ensures
            out == self.spec_profile(),
    {
        match &self.user_info {
            Some(info) => match &info.academics {
                Some(academics) => Some(
                    Profile { test_score: academics.sat, gpa: academics.raw_cumulative_gpa },
                ),
                None => None,
            },
            None => None,
        }
    }

    /// The report of the school: the statistics of its records for the
    /// student's profile. A school whose statistics hold no applications
    /// plotted against the unweighted GPA has no report.
    pub fn report(&self) -> (out: Option<Report>)
        ensures
            out is Some <==> self.has_scattergram(),
            out is Some ==> out->0@ == summarize(self.spec_records(), self.spec_profile()),
    {
        let present = match &self.scattergrams {
            Some(scattergrams) => scattergrams.gpa.is_some(),
            None => false,
        };
        if present {
            let records = self.records();
            Some(aggregate(&records, self.profile()))
        } else {
            None
        }
    }
}

} // verus!
