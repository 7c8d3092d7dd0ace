//! The applicant record that the statistics are computed from, the
//! student's own profile, and the window of similar applicants around it.

use crate::types::{group, spec_or_unknown, App, Apps, TypeName, SAT};
use vstd::prelude::*;

verus! {

/// How far below the student's own test score the window reaches.
pub const SCORE_BELOW: u32 = 20;

/// How far above the student's own test score the window reaches.
pub const SCORE_ABOVE: u32 = 30;

/// How far below the student's own GPA the window reaches, in thousandths
/// of a grade point.
pub const GPA_BELOW: u32 = 210;

/// How far above the student's own GPA the window reaches, in thousandths
/// of a grade point.
pub const GPA_ABOVE: u32 = 110;

/// How an application ended.
#[derive(Debug, Clone, Copy, PartialEq, Eq, Structural)]
pub enum Outcome {
    Accepted,
    Denied,
    WaitlistedAccepted,
    WaitlistedDenied,
    WaitlistedUnknown,
}

impl Outcome {
    /// Whether the application ended in admission, at once or from the
    /// waitlist.
    pub open spec fn admitted(self) -> bool {
        self == Outcome::Accepted || self == Outcome::WaitlistedAccepted
    }

    /// Whether the application did not end in admission: it was denied, at
    /// once or from the waitlist, or never left the waitlist.
    pub open spec fn rejected(self) -> bool {
        self == Outcome::Denied || self == Outcome::WaitlistedDenied || self
            == Outcome::WaitlistedUnknown
    }

    /// Whether the application ended in admission.
    pub fn is_admitted(self) -> (yes: bool)
        ensures
            yes == self.admitted(),
            yes == !self.rejected(),
    {
        match self {
            Outcome::Accepted => true,
            Outcome::WaitlistedAccepted => true,
            Outcome::Denied => false,
            Outcome::WaitlistedDenied => false,
            Outcome::WaitlistedUnknown => false,
        }
    }
}

/// One historical application, reduced to what the statistics read.
#[derive(Debug, Clone, Copy, PartialEq, Eq)]
pub struct Record {
    /// The decision plan; `Unknown` where the source names none.
    pub decision_type: TypeName,
    /// The combined test score, where the source has one.
    pub test_score: Option<u32>,
    /// The GPA in thousandths of a grade point, where the source has one.
    pub gpa: Option<u32>,
    /// How the application ended.
    pub outcome: Outcome,
}

/// The record of the application `app` that ended as `outcome`.
pub open spec fn record_of(app: App<SAT>, outcome: Outcome) -> Record {
    Record {
        decision_type: spec_or_unknown(app.decision_type),
        test_score: app.highest_combo_sat,
        gpa: app.gpa,
        outcome,
    }
}

/// The records of the applications `apps`, all of which ended as
/// `outcome`.
pub open spec fn records_of(apps: Seq<App<SAT>>, outcome: Outcome) -> Seq<Record> {
    apps.map_values(|app: App<SAT>| record_of(app, outcome))
}

impl App<SAT> {
    /// The record of this application, which ended as `outcome`. An
    /// application that names no decision plan counts under `Unknown`.
    pub fn record(&self, outcome: Outcome) -> (out: Record)
        ensures
            out == record_of(*self, outcome),
            self.decision_type is None ==> out.decision_type == TypeName::Unknown,
    {
        Record {
            decision_type: TypeName::or_unknown(self.decision_type),
            test_score: self.highest_combo_sat,
            gpa: self.gpa,
            outcome,
        }
    }
}

impl Apps<SAT> {
    /// The records of every application: the admitted ones first, in the
    /// order of [`Apps::all`].
    pub open spec fn spec_records(&self) -> Seq<Record> {
        records_of(group(self.accepted), Outcome::Accepted) + records_of(
            group(self.waitlisted_accepted),
            Outcome::WaitlistedAccepted,
        ) + records_of(group(self.denied), Outcome::Denied) + records_of(
            group(self.waitlisted_unknown),
            Outcome::WaitlistedUnknown,
        ) + records_of(group(self.waitlisted_denied), Outcome::WaitlistedDenied)
    }

    /// The records of every application, each with the outcome of the
    /// group that it stands in.
    pub fn records(&self) -> (out: Vec<Record>)
        ensures
            out@ == self.spec_records(),
            out@.len() == self.spec_all().len(),
    {
        let mut out: Vec<Record> = Vec::new();
        append_records(&mut out, &self.accepted, Outcome::Accepted);
        append_records(&mut out, &self.waitlisted_accepted, Outcome::WaitlistedAccepted);
        append_records(&mut out, &self.denied, Outcome::Denied);
        append_records(&mut out, &self.waitlisted_unknown, Outcome::WaitlistedUnknown);
        append_records(&mut out, &self.waitlisted_denied, Outcome::WaitlistedDenied);
        assert(Seq::<Record>::empty() + records_of(group(self.accepted), Outcome::Accepted)
            == records_of(group(self.accepted), Outcome::Accepted));
        out
    }
}

/// Appends the record of each application of `field`, in order.
fn append_records(out: &mut Vec<Record>, field: &Option<Vec<App<SAT>>>, outcome: Outcome)
    ensures
        final(out)@ == old(out)@ + records_of(group(*field), outcome),
{
    let ghost before = out@;
    match field {
        Some(list) => {
            let mut i: usize = 0;
            while i < list.len()
                invariant
                    i <= list@.len(),
                    out@ == before + records_of(list@.take(i as int), outcome),
                decreases list@.len() - i,
            {
                out.push(list[i].record(outcome));
                assert(list@.take(i + 1) == list@.take(i as int).push(list@[i as int]));
                assert(records_of(list@.take(i as int).push(list@[i as int]), outcome)
                    == records_of(list@.take(i as int), outcome).push(
                    record_of(list@[i as int], outcome),
                ));
                i = i + 1;
            }
            assert(list@.take(list@.len() as int) == list@);
        },
        None => {
            assert(records_of(Seq::<App<SAT>>::empty(), outcome) == Seq::<Record>::empty());
            assert(before + Seq::<Record>::empty() == before);
        },
    }
}

/// The student's own academic profile. Either value may be missing from
/// the source.
#[derive(Debug, Clone, Copy, PartialEq, Eq)]
pub struct Profile {
    /// The student's combined test score.
    pub test_score: Option<u32>,
    /// The student's GPA in thousandths of a grade point.
    pub gpa: Option<u32>,
}

/// The test scores and GPAs that count as close to a profile, every bound
/// included.
#[derive(Debug, Clone, Copy, PartialEq, Eq)]
pub struct Window {
    pub score_low: i64,
    pub score_high: i64,
    /// In thousandths of a grade point.
    pub gpa_low: i64,
    /// In thousandths of a grade point.
    pub gpa_high: i64,
}

/// The window around `profile`: it reaches 20 points below and 30 above
/// the test score, and 0.21 grade points below and 0.11 above the GPA.
/// There is none where the profile is absent or lacks either value.
pub open spec fn window_of(profile: Option<Profile>) -> Option<Window> {
    match profile {
        Some(Profile { test_score: Some(score), gpa: Some(gpa) }) => Some(
            Window {
                score_low: (score - SCORE_BELOW) as i64,
                score_high: (score + SCORE_ABOVE) as i64,
                gpa_low: (gpa - GPA_BELOW) as i64,
                gpa_high: (gpa + GPA_ABOVE) as i64,
            },
        ),
        _ => None,
    }
}

impl Window {
    /// Whether `record` has both a test score and a GPA and each lies
    /// within the bounds.
    pub open spec fn holds(self, record: Record) -> bool {
        match (record.test_score, record.gpa) {
            (Some(score), Some(gpa)) => self.score_low <= score <= self.score_high
                && self.gpa_low <= gpa <= self.gpa_high,
            _ => false,
        }
    }

    /// Whether `record` lies in the window. A record that lacks its test
    /// score or its GPA never does.
    pub fn contains(&self, record: &Record) -> (yes: bool)
        ensures
            yes == self.holds(*record),
    {
        match (record.test_score, record.gpa) {
            (Some(score), Some(gpa)) => self.score_low <= score as i64 && score as i64
                <= self.score_high && self.gpa_low <= gpa as i64 && gpa as i64 <= self.gpa_high,
            _ => false,
        }
    }
}

/// Whether `record` counts as close to `profile`: there is a window around
/// the profile and the record lies in it.
pub open spec fn in_window(profile: Option<Profile>, record: Record) -> bool {
    match window_of(profile) {
        Some(window) => window.holds(record),
        None => false,
    }
}

impl Profile {
    /// The window around this profile; none where the profile lacks its
    /// test score or its GPA.
    pub fn window(&self) -> (out: Option<Window>)
        ensures
            out == window_of(Some(*self)),
            out is Some <==> self.test_score is Some && self.gpa is Some,
    {
        match (self.test_score, self.gpa) {
            (Some(score), Some(gpa)) => Some(
                Window {
                    score_low: score as i64 - SCORE_BELOW as i64,
                    score_high: score as i64 + SCORE_ABOVE as i64,
                    gpa_low: gpa as i64 - GPA_BELOW as i64,
                    gpa_high: gpa as i64 + GPA_ABOVE as i64,
                },
            ),
            _ => None,
        }
    }
}

/// The window's bounds are part of it: an applicant 30 points above the
/// student's test score and 0.21 grade points below the student's GPA is
/// close to the student, and so is one 20 points below and 0.11 grade
/// points above; one point or one thousandth further out is not.
pub proof fn lemma_window_bounds_included(profile: Profile, record: Record)
    requires
        profile.test_score is Some,
        profile.gpa is Some,
        record.test_score is Some,
        record.gpa is Some,
    ensures
        record.test_score->0 == profile.test_score->0 + 30 && record.gpa->0 == profile.gpa->0
            - 210 ==> in_window(Some(profile), record),
        record.test_score->0 == profile.test_score->0 - 20 && record.gpa->0 == profile.gpa->0
            + 110 ==> in_window(Some(profile), record),
        record.test_score->0 >= profile.test_score->0 + 31 ==> !in_window(Some(profile), record),
        record.test_score->0 <= profile.test_score->0 - 21 ==> !in_window(Some(profile), record),
        record.gpa->0 >= profile.gpa->0 + 111 ==> !in_window(Some(profile), record),
        record.gpa->0 <= profile.gpa->0 - 211 ==> !in_window(Some(profile), record),
        in_window(Some(profile), record) <==> profile.test_score->0 - 20 <= record.test_score->0
            <= profile.test_score->0 + 30 && profile.gpa->0 - 210 <= record.gpa->0
            <= profile.gpa->0 + 110,
{
}

/// A record that lacks its test score or its GPA is close to no profile,
/// and no record is close to a profile that is absent or incomplete.
pub proof fn lemma_missing_values_excluded(profile: Option<Profile>, record: Record)
    ensures
        record.test_score is None || record.gpa is None ==> !in_window(profile, record),
        profile is None ==> !in_window(profile, record),
        profile is Some && (profile->0.test_score is None || profile->0.gpa is None)
            ==> !in_window(profile, record),
{
}

} // verus!
