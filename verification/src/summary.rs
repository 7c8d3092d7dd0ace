//! The mathematical model of the statistics: what the counts of a
//! population are, by plan and close to a profile. The contracts of the
//! aggregation are stated over these functions.

use crate::record::{in_window, Profile, Record};
use crate::stats::Counts;
use crate::types::TypeName;
use vstd::prelude::*;

verus! {

/// The records that ended in admission.
pub open spec fn admitted() -> spec_fn(Record) -> bool {
    |record: Record| record.outcome.admitted()
}

/// The records that did not end in admission.
pub open spec fn rejected() -> spec_fn(Record) -> bool {
    |record: Record| record.outcome.rejected()
}

/// The records submitted under the decision plan `plan`.
pub open spec fn under(plan: TypeName) -> spec_fn(Record) -> bool {
    |record: Record| record.decision_type == plan
}

/// The records that are close to `profile`.
pub open spec fn close_to(profile: Option<Profile>) -> spec_fn(Record) -> bool {
    |record: Record| in_window(profile, record)
}

/// The counts of a population: all of its records, and those among them
/// that ended in admission.
pub open spec fn tally_of(records: Seq<Record>) -> Counts {
    Counts { accepted: records.filter(admitted()).len(), total: records.len() }
}

/// The counts of the records of `records` submitted under `plan`.
pub open spec fn plan_counts(records: Seq<Record>, plan: TypeName) -> Counts {
    tally_of(records.filter(under(plan)))
}

/// The counts of a population by decision plan. A plan has an entry when
/// at least one record of the population was submitted under it.
pub open spec fn by_plan(records: Seq<Record>) -> Map<TypeName, Counts> {
    Map::new(
        |plan: TypeName| records.filter(under(plan)).len() > 0,
        |plan: TypeName| plan_counts(records, plan),
    )
}

/// The counts that `table` holds for `plan`; zero where it has no entry.
pub open spec fn entry(table: Map<TypeName, Counts>, plan: TypeName) -> Counts {
    if table.contains_key(plan) {
        table[plan]
    } else {
        Counts { accepted: 0, total: 0 }
    }
}

/// The applications of every plan of `table` together.
pub open spec fn sum_total(table: Map<TypeName, Counts>) -> nat {
    entry(table, TypeName::REA).total + entry(table, TypeName::EA).total + entry(
        table,
        TypeName::EA2,
    ).total + entry(table, TypeName::ED).total + entry(table, TypeName::ED2).total + entry(
        table,
        TypeName::RD,
    ).total + entry(table, TypeName::ROLL).total + entry(table, TypeName::OTH).total + entry(
        table,
        TypeName::Unknown,
    ).total
}

/// The admissions of every plan of `table` together.
pub open spec fn sum_accepted(table: Map<TypeName, Counts>) -> nat {
    entry(table, TypeName::REA).accepted + entry(table, TypeName::EA).accepted + entry(
        table,
        TypeName::EA2,
    ).accepted + entry(table, TypeName::ED).accepted + entry(table, TypeName::ED2).accepted
        + entry(table, TypeName::RD).accepted + entry(table, TypeName::ROLL).accepted + entry(
        table,
        TypeName::OTH,
    ).accepted + entry(table, TypeName::Unknown).accepted
}

/// The mathematical value of a [`Report`].
pub struct Summary {
    /// The counts of the whole population.
    pub overall: Counts,
    /// The counts of the whole population by decision plan.
    pub per_category: Map<TypeName, Counts>,
    /// The counts of the records close to the student's profile.
    pub boxed_overall: Counts,
    /// The counts of the records close to the student's profile, by
    /// decision plan.
    pub boxed_per_category: Map<TypeName, Counts>,
}

/// The statistics of `records` for a student with `profile`: the counts of
/// all records, overall and by decision plan, and the same counts of the
/// records that are close to the profile.
pub open spec fn summarize(records: Seq<Record>, profile: Option<Profile>) -> Summary {
    let boxed = records.filter(close_to(profile));
    Summary {
        overall: tally_of(records),
        per_category: by_plan(records),
        boxed_overall: tally_of(boxed),
        boxed_per_category: by_plan(boxed),
    }
}

} // verus!
