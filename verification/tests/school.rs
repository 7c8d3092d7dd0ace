use naviance::record::Profile;
use naviance::types::{
    Academics, App, ApplicationStatistics, Apps, College, GpaSpecific, Scattergrams, School,
    TestSpecific, TypeName, UserInfo, SAT,
};
use std::marker::PhantomData;

fn college(name: Option<&str>, uuid: Option<u128>) -> College {
    College {
        featured: None,
        id: None,
        hobsons_id: None,
        name: name.map(|name| name.to_string()),
        nces_id: None,
        short_name: None,
        nickname: None,
        alpha_name: None,
        address_line1: None,
        city: None,
        state: None,
        country: None,
        longitude: Some(-71_116_700),
        latitude: Some(42_377_000),
        url: None,
        sector: None,
        admissions_email: None,
        intl_admissions_email: None,
        ssr_required: None,
        teacher_recs_required: None,
        initial_transcript_required: None,
        is_college_active: None,
        parchment_id: None,
        edocs_college: None,
        school_area: None,
        core_mapping: None,
        deadlines: None,
        address_line2: None,
        uuid,
    }
}

fn school(college: Option<College>) -> School {
    School {
        id: Some(1),
        interest_level: None,
        expected_outcome: None,
        added_by_type: None,
        date_added: None,
        college_id: None,
        college,
        expected_outcome_label: None,
        interest_level_label: None,
    }
}

fn app(plan: Option<TypeName>, sat: Option<u32>, gpa: Option<u32>) -> App<SAT> {
    App {
        current_student: None,
        decision_type: plan,
        act_composite: None,
        act_composite_student: None,
        highest_combo_sat: sat,
        student_sat1600_composite: None,
        gpa,
        marker: PhantomData,
    }
}

fn by_sat(apps: Option<Apps<SAT>>) -> TestSpecific<SAT> {
    TestSpecific {
        count: None,
        sum: None,
        avg: None,
        gpa_count: None,
        gpa_sum: None,
        gpa_avg: None,
        gpa_conv_sum: None,
        gpa_conv_avg: None,
        apps,
    }
}

fn by_gpa(sat: Option<TestSpecific<SAT>>) -> GpaSpecific {
    GpaSpecific {
        gpa_count: None,
        gpa_sum: None,
        gpa_avg: None,
        gpa_conv_sum: None,
        gpa_conv_avg: None,
        act: None,
        sat,
    }
}

fn academics(sat: Option<u32>, gpa: Option<u32>) -> UserInfo {
    UserInfo {
        user_id: Some(7),
        academics: Some(Academics {
            gpa: Some(4100),
            raw_cumulative_gpa: gpa,
            raw_weighted_gpa: None,
            sat,
            psat: None,
            act: None,
        }),
    }
}

fn scenario_apps() -> Apps<SAT> {
    Apps {
        denied: Some(vec![app(Some(TypeName::RD), Some(1200), Some(3200))]),
        waitlisted_denied: None,
        waitlisted_accepted: None,
        waitlisted_unknown: None,
        accepted: Some(vec![
            app(Some(TypeName::RD), Some(1300), Some(3700)),
            app(Some(TypeName::ED), Some(1350), Some(3900)),
        ]),
    }
}

fn statistics(apps: Option<Apps<SAT>>, info: Option<UserInfo>) -> ApplicationStatistics {
    ApplicationStatistics {
        scattergrams: Some(Scattergrams {
            gpa: Some(by_gpa(Some(by_sat(apps)))),
            weighted_gpa: None,
        }),
        user_info: info,
    }
}

#[test]
fn school_is_shown_under_the_name_of_its_college() {
    assert_eq!(school(Some(college(Some("Harvard"), None))).display_name(), "Harvard");
}

#[test]
fn school_without_a_name_is_shown_as_such() {
    assert_eq!(school(None).display_name(), "NO NAME");
    assert_eq!(school(Some(college(None, Some(3)))).display_name(), "NO NAME");
}

#[test]
fn school_is_fetched_by_the_identifier_of_its_college() {
    assert_eq!(school(Some(college(Some("Harvard"), Some(42)))).uuid(), Some(42));
    assert_eq!(school(Some(college(Some("Harvard"), None))).uuid(), None);
    assert_eq!(school(None).uuid(), None);
}

#[test]
fn report_is_computed_from_the_sat_applications() {
    let stats = statistics(Some(scenario_apps()), Some(academics(Some(1300), Some(3700))));
    assert_eq!(stats.records().len(), 3);
    assert_eq!(stats.profile(), Some(Profile { test_score: Some(1300), gpa: Some(3700) }));
    let report = stats.report().unwrap();
    assert_eq!(report.overall().total(), 3);
    assert_eq!(report.overall().accepted(), 2);
    assert_eq!(report.overall().rate(), Some(6667));
    assert_eq!(report.boxed_overall().total(), 1);
    assert_eq!(report.boxed_overall().accepted(), 1);
    assert_eq!(report.boxed_overall().rate(), Some(10000));
}

#[test]
fn school_without_scattergrams_has_no_report() {
    let none = ApplicationStatistics {
        scattergrams: None,
        user_info: Some(academics(Some(1300), Some(3700))),
    };
    assert!(none.report().is_none());
    assert!(none.records().is_empty());
    let weighted_only = ApplicationStatistics {
        scattergrams: Some(Scattergrams { gpa: None, weighted_gpa: Some(by_gpa(None)) }),
        user_info: None,
    };
    assert!(weighted_only.report().is_none());
}

#[test]
fn school_without_applications_has_an_empty_report() {
    for stats in [
        statistics(None, None),
        ApplicationStatistics {
            scattergrams: Some(Scattergrams { gpa: Some(by_gpa(None)), weighted_gpa: None }),
            user_info: None,
        },
    ] {
        let report = stats.report().unwrap();
        assert_eq!(report.overall().total(), 0);
        assert_eq!(report.overall().rate(), None);
        assert_eq!(report.lines().len(), 2);
    }
}

#[test]
fn student_without_a_record_has_no_profile() {
    assert_eq!(statistics(None, None).profile(), None);
    let info = UserInfo { user_id: Some(1), academics: None };
    assert_eq!(statistics(None, Some(info)).profile(), None);
    let report = statistics(Some(scenario_apps()), Some(info)).report().unwrap();
    assert_eq!(report.overall().total(), 3);
    assert_eq!(report.boxed_overall().total(), 0);
}

#[test]
fn profile_takes_the_raw_cumulative_gpa() {
    let stats = statistics(None, Some(academics(None, Some(3500))));
    assert_eq!(stats.profile(), Some(Profile { test_score: None, gpa: Some(3500) }));
}
