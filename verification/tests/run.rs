use naviance::run::{finish, first_step, totals, Finish, SkipReason, Step, Totals};
use naviance::types::{
    ApplicationStatistics, College, GpaSpecific, Scattergrams, School,
};
use naviance::Error;

fn college(uuid: Option<u128>) -> College {
    College {
        featured: None,
        id: None,
        hobsons_id: None,
        name: None,
        nces_id: None,
        short_name: None,
        nickname: None,
        alpha_name: None,
        address_line1: None,
        city: None,
        state: None,
        country: None,
        longitude: None,
        latitude: None,
        url: None,
        sector: None,
        admissions_email: None,
        intl_admissions_email: None,
        ssr_required: None,
        teacher_recs_required: None,
        initial_transcript_required: None,
        is_college_active: None,
        parchment_id: None,
        edocs_college: None,
        school_area: None,
        core_mapping: None,
        deadlines: None,
        address_line2: None,
        uuid,
    }
}

fn school(college: Option<College>) -> School {
    School {
        id: None,
        interest_level: None,
        expected_outcome: None,
        added_by_type: None,
        date_added: None,
        college_id: None,
        college,
        expected_outcome_label: None,
        interest_level_label: None,
    }
}

fn statistics(with_scattergram: bool) -> ApplicationStatistics {
    let by_gpa = GpaSpecific {
        gpa_count: None,
        gpa_sum: None,
        gpa_avg: None,
        gpa_conv_sum: None,
        gpa_conv_avg: None,
        act: None,
        sat: None,
    };
    ApplicationStatistics {
        scattergrams: Some(Scattergrams {
            gpa: if with_scattergram { Some(by_gpa) } else { None },
            weighted_gpa: None,
        }),
        user_info: None,
    }
}

#[test]
fn school_with_an_identifier_is_fetched() {
    assert_eq!(first_step(&school(Some(college(Some(17))))), Step::Fetch(17));
}

#[test]
fn school_without_an_identifier_is_passed_over() {
    assert_eq!(first_step(&school(None)), Step::Skip(SkipReason::NoIdentifier));
    assert_eq!(first_step(&school(Some(college(None)))), Step::Skip(SkipReason::NoIdentifier));
}

#[test]
fn fetched_statistics_give_a_report() {
    match finish(Ok(statistics(true))) {
        Finish::Reported(report) => assert_eq!(report.overall().total(), 0),
        other => panic!("not reported: {:?}", other),
    }
}

#[test]
fn statistics_without_scattergram_are_passed_over() {
    assert!(matches!(
        finish(Ok(statistics(false))),
        Finish::Skipped(SkipReason::NoScattergram)
    ));
}

#[test]
fn failed_fetch_stays_a_failure() {
    let error = Error::Transport { status: Some(500), body: Some("down".to_string()) };
    match finish(Err(error.clone())) {
        Finish::Failed(kept) => assert_eq!(kept, error),
        other => panic!("not failed: {:?}", other),
    }
    let error = Error::Decode("expected value".to_string());
    match finish(Err(error.clone())) {
        Finish::Failed(kept) => assert_eq!(kept, error),
        other => panic!("not failed: {:?}", other),
    }
}

#[test]
fn every_school_of_a_run_is_counted_once() {
    let finishes = vec![
        finish(Ok(statistics(true))),
        finish(Err(Error::Decode("bad".to_string()))),
        Finish::Skipped(SkipReason::NoIdentifier),
        finish(Ok(statistics(false))),
        finish(Ok(statistics(true))),
        finish(Err(Error::Transport { status: None, body: None })),
        finish(Ok(statistics(true))),
    ];
    assert_eq!(totals(&finishes), Totals { reported: 3, skipped: 2, failed: 2 });
}

#[test]
fn empty_run_has_nothing_to_count() {
    assert_eq!(totals(&Vec::new()), Totals { reported: 0, skipped: 0, failed: 0 });
}
