//! The lines of a report, in the order in which it is shown.

use crate::report::{CategoryTable, Report};
use crate::stats::{rate_of, Counts, Tally};
use crate::summary::Summary;
use crate::types::{TypeName, TYPE_NAME_COUNT};
use vstd::prelude::*;

verus! {

/// Which population a line of a report speaks of.
#[derive(Debug, Clone, Copy, PartialEq, Eq, Structural)]
pub enum Scope {
    /// Every record.
    Whole,
    /// The records close to the student's profile.
    Boxed,
}

/// One line of a report: the counts of one population, overall or under
/// one decision plan, with the rate that follows from them.
#[derive(Debug, Clone, Copy, PartialEq, Eq)]
pub struct Line {
    pub scope: Scope,
    /// The decision plan; none on the line of the overall counts.
    pub plan: Option<TypeName>,
    pub accepted: u64,
    pub total: u64,
    /// In hundredths of a percent; none where `total` is zero.
    pub rate: Option<u32>,
}

/// The rate of `counts` as a line holds it.
pub open spec fn line_rate(counts: Counts) -> Option<u32> {
    match rate_of(counts) {
        Some(rate) => Some(rate as u32),
        None => None,
    }
}

/// The line for `counts` of the population `scope` under `plan`.
pub open spec fn line_of(scope: Scope, plan: Option<TypeName>, counts: Counts) -> Line {
    Line {
        scope,
        plan,
        accepted: counts.accepted as u64,
        total: counts.total as u64,
        rate: line_rate(counts),
    }
}

/// The lines of the plans among the first `n` of the fixed order that
/// have an entry in `table`, in that order.
pub open spec fn plan_lines(scope: Scope, table: Map<TypeName, Counts>, n: int) -> Seq<Line>
    decreases n,
{
    if n <= 0 {
        Seq::empty()
    } else {
        let plan = TypeName::spec_from_index(n - 1);
        if table.contains_key(plan) {
            plan_lines(scope, table, n - 1).push(line_of(scope, Some(plan), table[plan]))
        } else {
            plan_lines(scope, table, n - 1)
        }
    }
}

/// The lines of a report: the overall counts of the whole population, its
/// plans in their fixed order, the overall counts of the records close to
/// the profile, and their plans in the same order.
pub open spec fn lines_of(summary: Summary) -> Seq<Line> {
    seq![line_of(Scope::Whole, None, summary.overall)] + plan_lines(
        Scope::Whole,
        summary.per_category,
        TYPE_NAME_COUNT as int,
    ) + seq![line_of(Scope::Boxed, None, summary.boxed_overall)] + plan_lines(
        Scope::Boxed,
        summary.boxed_per_category,
        TYPE_NAME_COUNT as int,
    )
}

impl Tally {
    /// The line for this tally of the population `scope` under `plan`.
    pub fn line(&self, scope: Scope, plan: Option<TypeName>) -> (out: Line)
        ensures
            out == line_of(scope, plan, self@),
    {
        Line { scope, plan, accepted: self.accepted(), total: self.total(), rate: self.rate() }
    }
}

/// Appends the line of each plan that has an entry in `table`, in the
/// fixed order of the plans.
fn append_lines(table: &CategoryTable, scope: Scope, out: &mut Vec<Line>)
    ensures
        final(out)@ == old(out)@ + plan_lines(scope, table@, TYPE_NAME_COUNT as int),
{
    let ghost before = out@;
    let mut k: usize = 0;
    assert(before + plan_lines(scope, table@, 0) == before);
    while k < TYPE_NAME_COUNT
        invariant
            k <= TYPE_NAME_COUNT,
            out@ == before + plan_lines(scope, table@, k as int),
        decreases TYPE_NAME_COUNT - k,
    {
        let plan = match TypeName::from_index(k) {
            Some(plan) => plan,
            None => TypeName::Unknown,
        };
        match table.get(plan) {
            Some(tally) => {
                out.push(tally.line(scope, Some(plan)));
                assert(before + plan_lines(scope, table@, k as int + 1) == (before + plan_lines(
                    scope,
                    table@,
                    k as int,
                )).push(line_of(scope, Some(plan), table@[plan])));
            },
            None => {},
        }
        k = k + 1;
    }
}

impl Report {
    /// The lines of the report, in the order in which it is shown.
    pub fn lines(&self) -> (out: Vec<Line>)
        ensures
            out@ == lines_of(self@),
    {
        let mut out: Vec<Line> = Vec::new();
        out.push(self.overall().line(Scope::Whole, None));
        append_lines(self.per_category(), Scope::Whole, &mut out);
        out.push(self.boxed_overall().line(Scope::Boxed, None));
        append_lines(self.boxed_per_category(), Scope::Boxed, &mut out);
        assert(out@ =~= lines_of(self@));
        out
    }
}

} // verus!
