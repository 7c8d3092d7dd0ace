use naviance::util::{
    act_to_sat, bool_from_int_opt, is_on_act_scale, is_on_sat_scale, none_if_empty_string,
    none_if_zero, same_text, sat_to_act, strip_prefix, strip_suffix,
};

#[test]
fn sat_to_act_follows_the_table() {
    assert_eq!(sat_to_act(1600), 36);
    assert_eq!(sat_to_act(1570), 36);
    assert_eq!(sat_to_act(1560), 35);
    assert_eq!(sat_to_act(1300), 28);
    assert_eq!(sat_to_act(1290), 27);
    assert_eq!(sat_to_act(1000), 19);
    assert_eq!(sat_to_act(620), 10);
    assert_eq!(sat_to_act(610), 9);
    assert_eq!(sat_to_act(590), 9);
}

#[test]
fn sat_to_act_reads_only_the_tens() {
    assert_eq!(sat_to_act(1609), 36);
    assert_eq!(sat_to_act(1569), 35);
    assert_eq!(sat_to_act(1305), sat_to_act(1300));
    assert_eq!(sat_to_act(619), 9);
}

#[test]
fn act_to_sat_follows_the_table() {
    assert_eq!(act_to_sat(36), 1570..=1600);
    assert_eq!(act_to_sat(35), 1530..=1560);
    assert_eq!(act_to_sat(28), 1300..=1320);
    assert_eq!(act_to_sat(19), 990..=1020);
    assert_eq!(act_to_sat(10), 620..=640);
    assert_eq!(act_to_sat(9), 590..=610);
}

#[test]
fn every_band_converts_back_to_its_composite() {
    let mut previous_end = 580;
    for act in 9..=36 {
        let band = act_to_sat(act);
        assert_eq!(*band.start(), previous_end + 10);
        assert!(band.start() <= band.end());
        let mut sat = *band.start();
        while sat <= *band.end() {
            assert_eq!(sat_to_act(sat), act);
            sat += 10;
        }
        previous_end = *band.end();
    }
    assert_eq!(previous_end, 1600);
}

#[test]
fn conversion_never_falls_as_the_total_rises() {
    let mut previous = sat_to_act(590);
    for sat in 590..=1609 {
        let act = sat_to_act(sat);
        assert!(previous <= act);
        assert!((9..=36).contains(&act));
        previous = act;
    }
}

#[test]
fn scales_have_their_bounds() {
    assert!(!is_on_sat_scale(589));
    assert!(is_on_sat_scale(590));
    assert!(is_on_sat_scale(1609));
    assert!(!is_on_sat_scale(1610));
    assert!(!is_on_act_scale(8));
    assert!(is_on_act_scale(9));
    assert!(is_on_act_scale(36));
    assert!(!is_on_act_scale(37));
}

#[test]
fn zero_reads_as_absent() {
    assert_eq!(none_if_zero(Some(0)), None);
    assert_eq!(none_if_zero(Some(7)), Some(7));
    assert_eq!(none_if_zero(Some(-1)), Some(-1));
    assert_eq!(none_if_zero(None), None);
}

#[test]
fn empty_text_reads_as_absent() {
    assert_eq!(none_if_empty_string(Some(String::new())), None);
    assert_eq!(none_if_empty_string(Some("a".to_string())), Some("a".to_string()));
    assert_eq!(none_if_empty_string(Some(" ".to_string())), Some(" ".to_string()));
    assert_eq!(none_if_empty_string(None), None);
}

#[test]
fn flags_are_zero_or_one() {
    assert_eq!(bool_from_int_opt(None), Ok(None));
    assert_eq!(bool_from_int_opt(Some(0)), Ok(Some(false)));
    assert_eq!(bool_from_int_opt(Some(1)), Ok(Some(true)));
    assert_eq!(bool_from_int_opt(Some(2)), Err(2));
    assert_eq!(bool_from_int_opt(Some(255)), Err(255));
}

#[test]
fn prefix_is_taken_from_the_start() {
    assert_eq!(strip_prefix("window.x = 1;", "window.x = "), Some("1;"));
    assert_eq!(strip_prefix("abc", ""), Some("abc"));
    assert_eq!(strip_prefix("abc", "abc"), Some(""));
    assert_eq!(strip_prefix("abc", "abcd"), None);
    assert_eq!(strip_prefix("abc", "b"), None);
    assert_eq!(strip_prefix("", "a"), None);
    assert_eq!(strip_prefix("\u{e9}t\u{e9}", "\u{e9}"), Some("t\u{e9}"));
}

#[test]
fn suffix_is_taken_from_the_end() {
    assert_eq!(strip_suffix("{};", ";"), Some("{}"));
    assert_eq!(strip_suffix("abc", ""), Some("abc"));
    assert_eq!(strip_suffix("abc", "abc"), Some(""));
    assert_eq!(strip_suffix("abc", "zabc"), None);
    assert_eq!(strip_suffix("abc", "b"), None);
    assert_eq!(strip_suffix("{};;", ";"), Some("{};"));
    assert_eq!(strip_suffix("\u{e9}t\u{e9}", "\u{e9}"), Some("\u{e9}t"));
}

#[test]
fn texts_compare_by_their_characters() {
    assert!(same_text("", ""));
    assert!(same_text("RD", "RD"));
    assert!(!same_text("RD", "ED"));
    assert!(!same_text("RD", "RD "));
    assert!(!same_text("ED", "ED2"));
}
