use naviance::record::{Outcome, Profile, Record};
use naviance::lines::{Line, Scope};
use naviance::report::{aggregate, aggregate_boxed};
use naviance::types::TypeName;
use naviance::Error;

fn record(plan: TypeName, score: u32, gpa: u32, outcome: Outcome) -> Record {
    Record { decision_type: plan, test_score: Some(score), gpa: Some(gpa), outcome }
}

fn scenario() -> Vec<Record> {
    vec![
        record(TypeName::RD, 1300, 3700, Outcome::Accepted),
        record(TypeName::RD, 1200, 3200, Outcome::Denied),
        record(TypeName::ED, 1350, 3900, Outcome::Accepted),
    ]
}

fn profile(score: u32, gpa: u32) -> Option<Profile> {
    Some(Profile { test_score: Some(score), gpa: Some(gpa) })
}

#[test]
fn end_to_end_scenario() {
    let report = aggregate(&scenario(), profile(1300, 3700));
    assert_eq!(report.overall().total(), 3);
    assert_eq!(report.overall().accepted(), 2);
    assert_eq!(report.overall().rate(), Some(6667));
    assert_eq!(report.boxed_overall().total(), 1);
    assert_eq!(report.boxed_overall().accepted(), 1);
    assert_eq!(report.boxed_overall().rate(), Some(10000));
    let rd = report.per_category().get(TypeName::RD).unwrap();
    assert_eq!((rd.accepted(), rd.total(), rd.rate()), (1, 2, Some(5000)));
    let ed = report.per_category().get(TypeName::ED).unwrap();
    assert_eq!((ed.accepted(), ed.total(), ed.rate()), (1, 1, Some(10000)));
    assert!(report.per_category().get(TypeName::EA).is_none());
    let boxed_rd = report.boxed_per_category().get(TypeName::RD).unwrap();
    assert_eq!((boxed_rd.accepted(), boxed_rd.total()), (1, 1));
    assert!(report.boxed_per_category().get(TypeName::ED).is_none());
}

#[test]
fn end_to_end_window_bounds() {
    let window = Profile { test_score: Some(1300), gpa: Some(3700) }.window().unwrap();
    assert_eq!(window.score_low, 1280);
    assert_eq!(window.score_high, 1330);
    assert_eq!(window.gpa_low, 3490);
    assert_eq!(window.gpa_high, 3810);
}

#[test]
fn empty_population_has_no_rate() {
    let report = aggregate(&Vec::new(), profile(1300, 3700));
    assert_eq!(report.overall().total(), 0);
    assert_eq!(report.overall().accepted(), 0);
    assert_eq!(report.overall().rate(), None);
    assert_eq!(report.boxed_overall().rate(), None);
    assert!(report.per_category().entries().is_empty());
    assert!(report.boxed_per_category().entries().is_empty());
}

#[test]
fn lines_follow_the_fixed_order() {
    let report = aggregate(&scenario(), profile(1300, 3700));
    let lines = report.lines();
    let expected = vec![
        Line { scope: Scope::Whole, plan: None, accepted: 2, total: 3, rate: Some(6667) },
        Line { scope: Scope::Whole, plan: Some(TypeName::ED), accepted: 1, total: 1, rate: Some(10000) },
        Line { scope: Scope::Whole, plan: Some(TypeName::RD), accepted: 1, total: 2, rate: Some(5000) },
        Line { scope: Scope::Boxed, plan: None, accepted: 1, total: 1, rate: Some(10000) },
        Line { scope: Scope::Boxed, plan: Some(TypeName::RD), accepted: 1, total: 1, rate: Some(10000) },
    ];
    assert_eq!(lines, expected);
}

#[test]
fn strict_aggregation_needs_a_complete_profile() {
    let records = scenario();
    assert_eq!(
        aggregate_boxed(&records, None).unwrap_err(),
        Error::Precondition("the student has no academic profile".to_string())
    );
    assert_eq!(
        aggregate_boxed(&records, Some(Profile { test_score: None, gpa: Some(3700) })).unwrap_err(),
        Error::Precondition("the student's profile has no test score".to_string())
    );
    assert_eq!(
        aggregate_boxed(&records, Some(Profile { test_score: Some(1300), gpa: None })).unwrap_err(),
        Error::Precondition("the student's profile has no GPA".to_string())
    );
    let report = aggregate_boxed(&records, profile(1300, 3700)).unwrap();
    assert_eq!(report.boxed_overall().total(), 1);
}

fn in_window(profile: Option<Profile>, record: Record) -> bool {
    aggregate(&vec![record], profile).boxed_overall().total() == 1
}

#[test]
fn window_includes_its_bounds() {
    let own = profile(1300, 3700);
    assert!(in_window(own, record(TypeName::RD, 1330, 3490, Outcome::Denied)));
    assert!(in_window(own, record(TypeName::RD, 1280, 3810, Outcome::Denied)));
    assert!(in_window(own, record(TypeName::RD, 1300, 3700, Outcome::Denied)));
}

#[test]
fn window_excludes_what_lies_past_its_bounds() {
    let own = profile(1300, 3700);
    assert!(!in_window(own, record(TypeName::RD, 1331, 3490, Outcome::Denied)));
    assert!(!in_window(own, record(TypeName::RD, 1279, 3700, Outcome::Denied)));
    assert!(!in_window(own, record(TypeName::RD, 1300, 3489, Outcome::Denied)));
    assert!(!in_window(own, record(TypeName::RD, 1300, 3811, Outcome::Denied)));
}

#[test]
fn admitted_and_rejected_make_up_the_population() {
    let records = vec![
        record(TypeName::RD, 1300, 3700, Outcome::Accepted),
        record(TypeName::RD, 1300, 3700, Outcome::Denied),
        record(TypeName::EA, 1300, 3700, Outcome::WaitlistedAccepted),
        record(TypeName::EA, 1300, 3700, Outcome::WaitlistedDenied),
        record(TypeName::ED, 1300, 3700, Outcome::WaitlistedUnknown),
    ];
    let admitted = records.iter().filter(|r| r.outcome.is_admitted()).count() as u64;
    let rejected = records.iter().filter(|r| !r.outcome.is_admitted()).count() as u64;
    let report = aggregate(&records, None);
    assert_eq!(report.overall().accepted(), admitted);
    assert_eq!(report.overall().total(), admitted + rejected);
    assert_eq!(report.overall().accepted(), 2);
    assert_eq!(report.overall().total(), 5);
    assert_eq!(report.overall().rate(), Some(4000));
}

fn mixed() -> Vec<Record> {
    let mut records = Vec::new();
    let outcomes = [
        Outcome::Accepted,
        Outcome::Denied,
        Outcome::WaitlistedAccepted,
        Outcome::WaitlistedDenied,
        Outcome::WaitlistedUnknown,
    ];
    for i in 0..90u32 {
        let plan = TypeName::from_index((i % 9) as usize).unwrap();
        let outcome = outcomes[(i % 5) as usize];
        let score = if i % 7 == 0 { None } else { Some(1200 + 5 * i) };
        let gpa = if i % 11 == 0 { None } else { Some(3000 + 20 * i) };
        records.push(Record { decision_type: plan, test_score: score, gpa, outcome });
    }
    records
}

#[test]
fn plans_add_up_to_the_overall_counts() {
    let report = aggregate(&mixed(), profile(1400, 3800));
    let entries = report.per_category().entries();
    let total: u64 = entries.iter().map(|(_, tally)| tally.total()).sum();
    let accepted: u64 = entries.iter().map(|(_, tally)| tally.accepted()).sum();
    assert_eq!(total, report.overall().total());
    assert_eq!(accepted, report.overall().accepted());
    assert_eq!(report.overall().total(), 90);
    assert_eq!(report.overall().accepted(), 36);
    assert_eq!(entries.len(), 9);
    let whole = report.per_category().sum();
    assert_eq!((whole.accepted(), whole.total()), (36, 90));
}

#[test]
fn boxed_plans_add_up_to_the_boxed_counts() {
    let report = aggregate(&mixed(), profile(1400, 3800));
    let entries = report.boxed_per_category().entries();
    let total: u64 = entries.iter().map(|(_, tally)| tally.total()).sum();
    let accepted: u64 = entries.iter().map(|(_, tally)| tally.accepted()).sum();
    assert_eq!(total, report.boxed_overall().total());
    assert_eq!(accepted, report.boxed_overall().accepted());
    let expected: u64 = mixed()
        .iter()
        .filter(|r| match (r.test_score, r.gpa) {
            (Some(score), Some(gpa)) => {
                (1380..=1430).contains(&score) && (3590..=3910).contains(&gpa)
            }
            _ => false,
        })
        .count() as u64;
    assert!(expected > 0);
    assert_eq!(total, expected);
    assert!(report.boxed_overall().total() <= report.overall().total());
}

#[test]
fn records_without_values_count_only_in_the_whole() {
    let own = profile(1300, 3700);
    let records = vec![
        record(TypeName::RD, 1300, 3700, Outcome::Accepted),
        Record { decision_type: TypeName::RD, test_score: None, gpa: Some(3700), outcome: Outcome::Accepted },
        Record { decision_type: TypeName::ED, test_score: Some(1300), gpa: None, outcome: Outcome::Denied },
        Record { decision_type: TypeName::ED, test_score: None, gpa: None, outcome: Outcome::Accepted },
    ];
    let report = aggregate(&records, own);
    assert_eq!(report.overall().total(), 4);
    assert_eq!(report.overall().accepted(), 3);
    assert_eq!(report.per_category().get(TypeName::RD).unwrap().total(), 2);
    assert_eq!(report.per_category().get(TypeName::ED).unwrap().total(), 2);
    assert_eq!(report.boxed_overall().total(), 1);
    assert_eq!(report.boxed_overall().accepted(), 1);
    assert_eq!(report.boxed_per_category().get(TypeName::RD).unwrap().total(), 1);
    assert!(report.boxed_per_category().get(TypeName::ED).is_none());
}

#[test]
fn incomplete_profile_leaves_the_boxed_counts_empty() {
    let records = scenario();
    for own in [
        None,
        Some(Profile { test_score: None, gpa: Some(3700) }),
        Some(Profile { test_score: Some(1300), gpa: None }),
    ] {
        let report = aggregate(&records, own);
        assert_eq!(report.overall().total(), 3);
        assert_eq!(report.overall().accepted(), 2);
        assert_eq!(report.boxed_overall().total(), 0);
        assert_eq!(report.boxed_overall().rate(), None);
        assert!(report.boxed_per_category().entries().is_empty());
    }
}

#[test]
fn unknown_plan_is_counted() {
    let records = vec![Record {
        decision_type: TypeName::Unknown,
        test_score: Some(1300),
        gpa: Some(3700),
        outcome: Outcome::Denied,
    }];
    let report = aggregate(&records, profile(1300, 3700));
    assert_eq!(report.overall().total(), 1);
    let unknown = report.per_category().get(TypeName::Unknown).unwrap();
    assert_eq!((unknown.accepted(), unknown.total(), unknown.rate()), (0, 1, Some(0)));
    assert_eq!(report.per_category().entries().len(), 1);
    assert_eq!(report.per_category().entries()[0].0, TypeName::Unknown);
}

#[test]
fn one_more_record_adds_one_to_its_plan() {
    let mut records = mixed();
    let before = aggregate(&records, profile(1400, 3800));
    records.push(record(TypeName::ROLL, 1400, 3800, Outcome::Accepted));
    let after = aggregate(&records, profile(1400, 3800));
    assert_eq!(after.overall().total(), before.overall().total() + 1);
    assert_eq!(after.overall().accepted(), before.overall().accepted() + 1);
    assert_eq!(
        after.per_category().get(TypeName::ROLL).unwrap().total(),
        before.per_category().get(TypeName::ROLL).unwrap().total() + 1
    );
    assert_eq!(
        after.per_category().get(TypeName::RD).unwrap().total(),
        before.per_category().get(TypeName::RD).unwrap().total()
    );
    assert_eq!(after.boxed_overall().total(), before.boxed_overall().total() + 1);
}
