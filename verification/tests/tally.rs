use naviance::lines::Scope;
use naviance::stats::Tally;
use naviance::types::TypeName;

#[test]
fn tally_holds_its_counts() {
    let tally = Tally::new(2, 3).unwrap();
    assert_eq!(tally.accepted(), 2);
    assert_eq!(tally.total(), 3);
}

#[test]
fn tally_refuses_more_admissions_than_applications() {
    assert!(Tally::new(4, 3).is_none());
    assert!(Tally::new(1, 0).is_none());
    assert!(Tally::new(3, 3).is_some());
    assert!(Tally::new(0, 0).is_some());
}

#[test]
fn rate_is_rounded_to_the_nearest_hundredth() {
    assert_eq!(Tally::new(2, 3).unwrap().rate(), Some(6667));
    assert_eq!(Tally::new(1, 3).unwrap().rate(), Some(3333));
    assert_eq!(Tally::new(1, 2).unwrap().rate(), Some(5000));
    assert_eq!(Tally::new(1, 7).unwrap().rate(), Some(1429));
    assert_eq!(Tally::new(1, 800).unwrap().rate(), Some(13));
    assert_eq!(Tally::new(1, 30000).unwrap().rate(), Some(0));
    assert_eq!(Tally::new(1, 20000).unwrap().rate(), Some(1));
}

#[test]
fn rate_runs_from_nothing_to_the_whole() {
    assert_eq!(Tally::new(0, 5).unwrap().rate(), Some(0));
    assert_eq!(Tally::new(5, 5).unwrap().rate(), Some(10000));
    assert_eq!(Tally::new(u64::MAX, u64::MAX).unwrap().rate(), Some(10000));
    assert_eq!(Tally::new(u64::MAX - 1, u64::MAX).unwrap().rate(), Some(10000));
    assert_eq!(Tally::new(0, u64::MAX).unwrap().rate(), Some(0));
}

#[test]
fn rate_of_nothing_is_undefined() {
    assert_eq!(Tally::new(0, 0).unwrap().rate(), None);
}

#[test]
fn line_repeats_the_tally() {
    let line = Tally::new(1, 4).unwrap().line(Scope::Boxed, Some(TypeName::EA));
    assert_eq!(line.scope, Scope::Boxed);
    assert_eq!(line.plan, Some(TypeName::EA));
    assert_eq!(line.accepted, 1);
    assert_eq!(line.total, 4);
    assert_eq!(line.rate, Some(2500));
    let empty = Tally::new(0, 0).unwrap().line(Scope::Whole, None);
    assert_eq!(empty.rate, None);
}
