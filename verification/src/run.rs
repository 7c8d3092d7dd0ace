//! The course of a run over the student's list, school by school: what to
//! do for a school, what became of it once its statistics were fetched or
//! the fetch failed, and how the run went as a whole.
//!
//! A school that cannot be reported is skipped or counted as failed; it
//! never stops the run.

use crate::laws::lemma_filter_push;
use crate::report::Report;
use crate::summary::summarize;
use crate::types::{ApplicationStatistics, School};
use crate::Error;
use vstd::prelude::*;

verus! {

/// Why a school is passed over.
#[derive(Debug, Clone, Copy, PartialEq, Eq, Structural)]
pub enum SkipReason {
    /// The school has no identifier under which statistics are kept.
    NoIdentifier,
    /// The school's statistics hold no applications plotted against the
    /// unweighted GPA.
    NoScattergram,
}

/// What to do for a school.
#[derive(Debug, Clone, Copy, PartialEq, Eq, Structural)]
pub enum Step {
    /// Fetch the statistics kept under this identifier.
    Fetch(u128),
    /// Pass the school over, with a warning.
    Skip(SkipReason),
}

/// What became of a school.
#[derive(Debug)]
pub enum Finish {
    /// Its report was computed.
    Reported(Report),
    /// It was passed over.
    Skipped(SkipReason),
    /// Its statistics could not be fetched or decoded.
    Failed(Error),
}

/// How a run went: how many schools ended in each way.
#[derive(Debug, Clone, Copy, PartialEq, Eq)]
pub struct Totals {
    pub reported: usize,
    pub skipped: usize,
    pub failed: usize,
}

/// Decides what to do for `school`: its statistics are fetched under the
/// identifier of its college, and a school without one is passed over.
pub fn first_step(school: &School) -> (step: Step)
    ensures
        step == match school.spec_uuid() {
            Some(id) => Step::Fetch(id),
            None => Step::Skip(SkipReason::NoIdentifier),
        },
{
    match school.uuid() {
        Some(id) => Step::Fetch(id),
        None => Step::Skip(SkipReason::NoIdentifier),
    }
}

/// Concludes a school from what the fetch of its statistics gave. A
/// failure is kept as it is. Statistics with applications plotted against
/// the unweighted GPA give the school's report; any others have the
/// school passed over.
pub fn finish(fetched: Result<ApplicationStatistics, Error>) -> (out: Finish)
    ensures
        match fetched {
            Err(error) => out matches Finish::Failed(kept) && kept == error,
            Ok(statistics) => if statistics.has_scattergram() {
                out matches Finish::Reported(report) && report@ == summarize(
                    statistics.spec_records(),
                    statistics.spec_profile(),
                )
            } else {
                out matches Finish::Skipped(reason) && reason == SkipReason::NoScattergram
            },
        },
{
    match fetched {
        Err(error) => Finish::Failed(error),
        Ok(statistics) => match statistics.report() {
            Some(report) => Finish::Reported(report),
            None => Finish::Skipped(SkipReason::NoScattergram),
        },
    }
}

/// The schools that were reported.
pub open spec fn reported() -> spec_fn(Finish) -> bool {
    |finish: Finish| finish is Reported
}

/// The schools that were passed over.
pub open spec fn skipped() -> spec_fn(Finish) -> bool {
    |finish: Finish| finish is Skipped
}

/// The schools whose statistics could not be had.
pub open spec fn failed() -> spec_fn(Finish) -> bool {
    |finish: Finish| finish is Failed
}

/// Counts how the schools of a run ended. Every school is counted once,
/// the failed ones too.
pub fn totals(finishes: &Vec<Finish>) -> (out: Totals)
    ensures
        out.reported == finishes@.filter(reported()).len(),
        out.skipped == finishes@.filter(skipped()).len(),
        out.failed == finishes@.filter(failed()).len(),
        out.reported + out.skipped + out.failed == finishes@.len(),
{
    let mut out = Totals { reported: 0, skipped: 0, failed: 0 };
    let mut i: usize = 0;
    proof {
        let none = finishes@.take(0);
        none.lemma_filter_len(reported());
        none.lemma_filter_len(skipped());
        none.lemma_filter_len(failed());
    }
    while i < finishes.len()
        invariant
            i <= finishes@.len(),
            out.reported == finishes@.take(i as int).filter(reported()).len(),
            out.skipped == finishes@.take(i as int).filter(skipped()).len(),
            out.failed == finishes@.take(i as int).filter(failed()).len(),
            out.reported + out.skipped + out.failed == i,
        decreases finishes@.len() - i,
    {
        proof {
            let seen = finishes@.take(i as int);
            let next = finishes@[i as int];
            assert(finishes@.take(i + 1) == seen.push(next));
            lemma_filter_push(seen, next, reported());
            lemma_filter_push(seen, next, skipped());
            lemma_filter_push(seen, next, failed());
        }
        match &finishes[i] {
            Finish::Reported(_) => {
                out.reported = out.reported + 1;
            },
            Finish::Skipped(_) => {
                out.skipped = out.skipped + 1;
            },
            Finish::Failed(_) => {
                out.failed = out.failed + 1;
            },
        }
        i = i + 1;
    }
    assert(finishes@.take(finishes@.len() as int) == finishes@);
    out
}

} // verus!
