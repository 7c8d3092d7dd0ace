use naviance::record::{Outcome, Profile, Record};
use naviance::types::{App, Apps, TypeName, ACT, SAT};
use std::marker::PhantomData;

fn app(plan: Option<TypeName>, sat: Option<u32>, gpa: Option<u32>) -> App<SAT> {
    App {
        current_student: Some(false),
        decision_type: plan,
        act_composite: None,
        act_composite_student: Some(30),
        highest_combo_sat: sat,
        student_sat1600_composite: sat,
        gpa,
        marker: PhantomData,
    }
}

fn apps() -> Apps<SAT> {
    Apps {
        denied: Some(vec![app(Some(TypeName::RD), Some(1200), Some(3200))]),
        waitlisted_denied: Some(vec![app(Some(TypeName::ED), Some(1250), Some(3300))]),
        waitlisted_accepted: Some(vec![app(Some(TypeName::EA), Some(1400), Some(3800))]),
        waitlisted_unknown: Some(vec![app(None, Some(1100), None)]),
        accepted: Some(vec![
            app(Some(TypeName::RD), Some(1300), Some(3700)),
            app(Some(TypeName::ED), Some(1350), Some(3900)),
        ]),
    }
}

#[test]
fn plans_keep_their_order() {
    let order = [
        TypeName::REA,
        TypeName::EA,
        TypeName::EA2,
        TypeName::ED,
        TypeName::ED2,
        TypeName::RD,
        TypeName::ROLL,
        TypeName::OTH,
        TypeName::Unknown,
    ];
    for (i, plan) in order.iter().enumerate() {
        assert_eq!(plan.index(), i);
        assert_eq!(TypeName::from_index(i), Some(*plan));
    }
    assert_eq!(TypeName::from_index(9), None);
}

#[test]
fn tags_read_back_as_their_plans() {
    for i in 0..9 {
        let plan = TypeName::from_index(i).unwrap();
        assert_eq!(TypeName::from_tag(plan.tag()), plan);
    }
    assert_eq!(TypeName::from_tag("RD"), TypeName::RD);
    assert_eq!(TypeName::from_tag("ROLL"), TypeName::ROLL);
    assert_eq!(TypeName::RD.tag(), "RD");
    assert_eq!(TypeName::OTH.tag(), "OTH");
}

#[test]
fn unrecognised_tags_read_as_unknown() {
    assert_eq!(TypeName::from_tag(""), TypeName::Unknown);
    assert_eq!(TypeName::from_tag("rd"), TypeName::Unknown);
    assert_eq!(TypeName::from_tag("PRIORITY"), TypeName::Unknown);
    assert_eq!(TypeName::from_tag("ED3"), TypeName::Unknown);
    assert_eq!(TypeName::or_unknown(None), TypeName::Unknown);
    assert_eq!(TypeName::or_unknown(Some(TypeName::EA2)), TypeName::EA2);
}

#[test]
fn accepted_lists_admissions_from_the_waitlist_too() {
    let apps = apps();
    let accepted = apps.accepted();
    assert_eq!(accepted.len(), 3);
    assert_eq!(accepted[0].highest_combo_sat, Some(1300));
    assert_eq!(accepted[1].highest_combo_sat, Some(1350));
    assert_eq!(accepted[2].highest_combo_sat, Some(1400));
}

#[test]
fn denied_lists_every_application_that_was_not_admitted() {
    let apps = apps();
    let denied = apps.denied();
    assert_eq!(denied.len(), 3);
    assert_eq!(denied[0].highest_combo_sat, Some(1200));
    assert_eq!(denied[1].highest_combo_sat, Some(1100));
    assert_eq!(denied[2].highest_combo_sat, Some(1250));
}

#[test]
fn all_is_accepted_then_denied() {
    let apps = apps();
    let all = apps.all();
    assert_eq!(all.len(), apps.accepted().len() + apps.denied().len());
    let scores: Vec<Option<u32>> = all.iter().map(|app| app.highest_combo_sat).collect();
    assert_eq!(
        scores,
        vec![Some(1300), Some(1350), Some(1400), Some(1200), Some(1100), Some(1250)]
    );
}

#[test]
fn absent_groups_hold_nothing() {
    let apps: Apps<SAT> = Apps {
        denied: None,
        waitlisted_denied: None,
        waitlisted_accepted: None,
        waitlisted_unknown: None,
        accepted: None,
    };
    assert!(apps.all().is_empty());
    assert!(apps.accepted().is_empty());
    assert!(apps.denied().is_empty());
    assert!(apps.records().is_empty());
}

#[test]
fn records_carry_the_outcome_of_their_group() {
    let records = apps().records();
    let expected = vec![
        Record {
            decision_type: TypeName::RD,
            test_score: Some(1300),
            gpa: Some(3700),
            outcome: Outcome::Accepted,
        },
        Record {
            decision_type: TypeName::ED,
            test_score: Some(1350),
            gpa: Some(3900),
            outcome: Outcome::Accepted,
        },
        Record {
            decision_type: TypeName::EA,
            test_score: Some(1400),
            gpa: Some(3800),
            outcome: Outcome::WaitlistedAccepted,
        },
        Record {
            decision_type: TypeName::RD,
            test_score: Some(1200),
            gpa: Some(3200),
            outcome: Outcome::Denied,
        },
        Record {
            decision_type: TypeName::Unknown,
            test_score: Some(1100),
            gpa: None,
            outcome: Outcome::WaitlistedUnknown,
        },
        Record {
            decision_type: TypeName::ED,
            test_score: Some(1250),
            gpa: Some(3300),
            outcome: Outcome::WaitlistedDenied,
        },
    ];
    assert_eq!(records, expected);
    let admitted = records.iter().filter(|record| record.outcome.is_admitted()).count();
    assert_eq!(admitted, apps().accepted().len());
    assert_eq!(records.len() - admitted, apps().denied().len());
}

#[test]
fn outcomes_split_in_two() {
    assert!(Outcome::Accepted.is_admitted());
    assert!(Outcome::WaitlistedAccepted.is_admitted());
    assert!(!Outcome::Denied.is_admitted());
    assert!(!Outcome::WaitlistedDenied.is_admitted());
    assert!(!Outcome::WaitlistedUnknown.is_admitted());
}

#[test]
fn untagged_application_counts_as_unknown() {
    let record = app(None, Some(1300), Some(3700)).record(Outcome::Denied);
    assert_eq!(record.decision_type, TypeName::Unknown);
    assert_eq!(record.test_score, Some(1300));
    assert_eq!(record.gpa, Some(3700));
    assert_eq!(record.outcome, Outcome::Denied);
}

#[test]
fn to_act_converts_the_total_and_keeps_the_rest() {
    let sat = app(Some(TypeName::RD), Some(1300), Some(3700));
    assert!(sat.is_convertible());
    let act: App<ACT> = sat.to_act();
    assert_eq!(act.act_composite, Some(28));
    assert_eq!(act.act_composite_student, None);
    assert_eq!(act.highest_combo_sat, Some(1300));
    assert_eq!(act.student_sat1600_composite, Some(1300));
    assert_eq!(act.current_student, Some(false));
    assert_eq!(act.decision_type, Some(TypeName::RD));
    assert_eq!(act.gpa, Some(3700));
}

#[test]
fn to_act_without_a_total_has_no_composite() {
    let sat = app(None, None, None);
    assert!(sat.is_convertible());
    let act = sat.to_act();
    assert_eq!(act.act_composite, None);
    assert_eq!(act.highest_combo_sat, None);
}

#[test]
fn totals_off_the_scale_are_not_convertible() {
    assert!(!app(None, Some(400), None).is_convertible());
    assert!(!app(None, Some(1610), None).is_convertible());
    assert!(app(None, Some(1609), None).is_convertible());
    assert!(app(None, Some(590), None).is_convertible());
}

#[test]
fn window_is_wider_above_the_score_and_below_the_gpa() {
    let window = Profile { test_score: Some(1000), gpa: Some(3000) }.window().unwrap();
    assert_eq!(window.score_low, 980);
    assert_eq!(window.score_high, 1030);
    assert_eq!(window.gpa_low, 2790);
    assert_eq!(window.gpa_high, 3110);
}

#[test]
fn window_near_zero_reaches_below_it() {
    let window = Profile { test_score: Some(5), gpa: Some(100) }.window().unwrap();
    assert_eq!(window.score_low, -15);
    assert_eq!(window.gpa_low, -110);
    let record = Record {
        decision_type: TypeName::RD,
        test_score: Some(0),
        gpa: Some(0),
        outcome: Outcome::Denied,
    };
    assert!(window.contains(&record));
}

#[test]
fn window_at_the_top_of_the_range_does_not_wrap() {
    let window = Profile { test_score: Some(u32::MAX), gpa: Some(u32::MAX) }.window().unwrap();
    assert_eq!(window.score_high, u32::MAX as i64 + 30);
    assert_eq!(window.gpa_high, u32::MAX as i64 + 110);
}

#[test]
fn incomplete_profile_has_no_window() {
    assert!(Profile { test_score: None, gpa: Some(3000) }.window().is_none());
    assert!(Profile { test_score: Some(1000), gpa: None }.window().is_none());
    assert!(Profile { test_score: None, gpa: None }.window().is_none());
}
