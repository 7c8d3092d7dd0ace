//! Conversions between the SAT and ACT scales, and the small normalisations
//! applied to raw field values.

use std::ops::RangeInclusive;
use vstd::prelude::*;
use vstd::string::StrSliceExecFns;

verus! {

/// The lowest ACT composite score that the concordance table covers.
pub const ACT_MIN: u32 = 9;

/// The highest ACT composite score.
pub const ACT_MAX: u32 = 36;

/// The lowest SAT total that the concordance table covers.
pub const SAT_MIN: u32 = 590;

/// The highest SAT total that the concordance table accepts: every score
/// whose tens lie in the band of ACT 36.
pub const SAT_MAX: u32 = 1609;

/// The concordance table: the lowest SAT total that corresponds to the ACT
/// composite `act`, for `9 <= act <= 36`. At 37 it gives the first total
/// above the band of 36, so that the band of each `act` is the half-open
/// interval from `sat_floor(act)` to `sat_floor(act + 1)`.
pub open spec fn sat_floor(act: int) -> int {
    if act <= 9 {
        590
    } else if act == 10 {
        620
    } else if act == 11 {
        650
    } else if act == 12 {
        690
    } else if act == 13 {
        730
    } else if act == 14 {
        780
    } else if act == 15 {
        830
    } else if act == 16 {
        880
    } else if act == 17 {
        920
    } else if act == 18 {
        960
    } else if act == 19 {
        990
    } else if act == 20 {
        1030
    } else if act == 21 {
        1060
    } else if act == 22 {
        1100
    } else if act == 23 {
        1130
    } else if act == 24 {
        1160
    } else if act == 25 {
        1200
    } else if act == 26 {
        1230
    } else if act == 27 {
        1260
    } else if act == 28 {
        1300
    } else if act == 29 {
        1330
    } else if act == 30 {
        1360
    } else if act == 31 {
        1390
    } else if act == 32 {
        1420
    } else if act == 33 {
        1450
    } else if act == 34 {
        1490
    } else if act == 35 {
        1530
    } else if act == 36 {
        1570
    } else {
        1610
    }
}

/// Whether `sat` is a total that the concordance table covers.
pub open spec fn on_sat_scale(sat: int) -> bool {
    SAT_MIN <= sat <= SAT_MAX
}

/// Whether `act` is a composite that the concordance table covers.
pub open spec fn on_act_scale(act: int) -> bool {
    ACT_MIN <= act <= ACT_MAX
}

/// The ACT composite whose band holds the SAT total `sat`.
pub open spec fn act_of_sat(sat: int) -> int
    recommends
        on_sat_scale(sat),
{
    choose|act: int| on_act_scale(act) && sat_floor(act) <= sat < sat_floor(act + 1)
}

/// Converts an SAT total to the ACT composite of the band it falls in.
/// Only the tens of the total count: 1300 and 1309 convert alike.
pub fn sat_to_act(sat: u32) -> (act: u32)
    requires
        on_sat_scale(sat as int),
    ensures
        on_act_scale(act as int),
        sat_floor(act as int) <= sat < sat_floor(act + 1),
        act == act_of_sat(sat as int),
{
    let tens: u32 = sat / 10;
    let act: u32 = match tens {
        157..=160 => 36,
        153..=156 => 35,
        149..=152 => 34,
        145..=148 => 33,
        142..=144 => 32,
        139..=141 => 31,
        136..=138 => 30,
        133..=135 => 29,
        130..=132 => 28,
        126..=129 => 27,
        123..=125 => 26,
        120..=122 => 25,
        116..=119 => 24,
        113..=115 => 23,
        110..=112 => 22,
        106..=109 => 21,
        103..=105 => 20,
        99..=102 => 19,
        96..=98 => 18,
        92..=95 => 17,
        88..=91 => 16,
        83..=87 => 15,
        78..=82 => 14,
        73..=77 => 13,
        69..=72 => 12,
        65..=68 => 11,
        62..=64 => 10,
        _ => 9,
    };
    proof {
        lemma_band_unique(sat as int, act as int);
    }
    act
}

/// Converts an ACT composite to the SAT totals of its band, both ends
/// included. The totals are multiples of ten.
pub fn act_to_sat(act: u32) -> (band: RangeInclusive<u32>)
    requires
        on_act_scale(act as int),
    ensures
        band@.start == sat_floor(act as int),
        band@.end == sat_floor(act + 1) - 10,
        !band@.exhausted,
{
    match act {
        36 => 1570..=1600,
        35 => 1530..=1560,
        34 => 1490..=1520,
        33 => 1450..=1480,
        32 => 1420..=1440,
        31 => 1390..=1410,
        30 => 1360..=1380,
        29 => 1330..=1350,
        28 => 1300..=1320,
        27 => 1260..=1290,
        26 => 1230..=1250,
        25 => 1200..=1220,
        24 => 1160..=1190,
        23 => 1130..=1150,
        22 => 1100..=1120,
        21 => 1060..=1090,
        20 => 1030..=1050,
        19 => 990..=1020,
        18 => 960..=980,
        17 => 920..=950,
        16 => 880..=910,
        15 => 830..=870,
        14 => 780..=820,
        13 => 730..=770,
        12 => 690..=720,
        11 => 650..=680,
        10 => 620..=640,
        _ => 590..=610,
    }
}

/// The bands of the concordance table rise with the composite.
pub proof fn lemma_sat_floor_increases(a: int, b: int)
    requires
        ACT_MIN <= a < b <= ACT_MAX + 1,
    ensures
        sat_floor(a) < sat_floor(b),
{
}

/// A total lies in the band of one composite only, so the band determines
/// the composite.
pub proof fn lemma_band_unique(sat: int, act: int)
    requires
        on_act_scale(act),
        sat_floor(act) <= sat < sat_floor(act + 1),
    ensures
        act_of_sat(sat) == act,
{
    let other = act_of_sat(sat);
    assert(on_act_scale(other) && sat_floor(other) <= sat < sat_floor(other + 1));
    if other < act {
        lemma_sat_floor_increases(other + 1, act + 1);
        if other + 1 < act {
            lemma_sat_floor_increases(other + 1, act);
        }
    }
    if act < other {
        if act + 1 < other {
            lemma_sat_floor_increases(act + 1, other);
        }
    }
}

/// Converting a composite to its band and any total of that band back
/// gives the composite again.
pub proof fn lemma_act_round_trip(act: int, sat: int)
    requires
        on_act_scale(act),
        sat_floor(act) <= sat <= sat_floor(act + 1) - 10,
    ensures
        on_sat_scale(sat),
        act_of_sat(sat) == act,
{
    if ACT_MIN < act {
        lemma_sat_floor_increases(ACT_MIN as int, act);
    }
    if act < ACT_MAX {
        lemma_sat_floor_increases(act + 1, ACT_MAX + 1);
    }
    lemma_band_unique(sat, act);
}

/// A higher total never converts to a lower composite.
pub proof fn lemma_act_of_sat_monotonic(low: int, high: int)
    requires
        on_sat_scale(low),
        on_sat_scale(high),
        low <= high,
    ensures
        act_of_sat(low) <= act_of_sat(high),
{
    lemma_on_scale_has_band(low);
    lemma_on_scale_has_band(high);
    let a = act_of_sat(low);
    let b = act_of_sat(high);
    if b < a {
        if b + 1 < a {
            lemma_sat_floor_increases(b + 1, a);
        }
    }
}

/// Every total on the scale lies in the band of some composite.
pub proof fn lemma_on_scale_has_band(sat: int)
    requires
        on_sat_scale(sat),
    ensures
        on_act_scale(act_of_sat(sat)),
        sat_floor(act_of_sat(sat)) <= sat < sat_floor(act_of_sat(sat) + 1),
{
    let act = band_index(sat);
    assert(on_act_scale(act) && sat_floor(act) <= sat < sat_floor(act + 1));
}

/// The composite found by walking the table from the top.
spec fn band_index(sat: int) -> int {
    if sat >= 1570 {
        36
    } else if sat >= 1530 {
        35
    } else if sat >= 1490 {
        34
    } else if sat >= 1450 {
        33
    } else if sat >= 1420 {
        32
    } else if sat >= 1390 {
        31
    } else if sat >= 1360 {
        30
    } else if sat >= 1330 {
        29
    } else if sat >= 1300 {
        28
    } else if sat >= 1260 {
        27
    } else if sat >= 1230 {
        26
    } else if sat >= 1200 {
        25
    } else if sat >= 1160 {
        24
    } else if sat >= 1130 {
        23
    } else if sat >= 1100 {
        22
    } else if sat >= 1060 {
        21
    } else if sat >= 1030 {
        20
    } else if sat >= 990 {
        19
    } else if sat >= 960 {
        18
    } else if sat >= 920 {
        17
    } else if sat >= 880 {
        16
    } else if sat >= 830 {
        15
    } else if sat >= 780 {
        14
    } else if sat >= 730 {
        13
    } else if sat >= 690 {
        12
    } else if sat >= 650 {
        11
    } else if sat >= 620 {
        10
    } else {
        9
    }
}

/// Reads a number that the service writes as zero where it has none: zero
/// becomes absent, every other value is kept.
pub fn none_if_zero(value: Option<i64>) -> (out: Option<i64>)
    ensures
        out == if value == Some(0i64) {
            None
        } else {
            value
        },
{
    match value {
        Some(0) => None,
        other => other,
    }
}

/// Reads a text that the service writes as empty where it has none: the
/// empty text becomes absent, every other value is kept.
pub fn none_if_empty_string(value: Option<String>) -> (out: Option<String>)
    ensures
        out == match value {
            Some(text) => if text@.len() == 0 {
                None
            } else {
                Some(text)
            },
            None => None,
        },
{
    match value {
        Some(text) => {
            if text.as_str().is_empty() {
                None
            } else {
                Some(text)
            }
        },
        None => None,
    }
}

/// Reads a flag that the service writes as the number zero or one. Any
/// other number is no flag, and is handed back as the error.
pub fn bool_from_int_opt(value: Option<u8>) -> (out: Result<Option<bool>, u8>)
    ensures
        out == match value {
            None => Ok::<Option<bool>, u8>(None),
            Some(number) => if number == 0 {
                Ok(Some(false))
            } else if number == 1 {
                Ok(Some(true))
            } else {
                Err(number)
            },
        },
{
    match value {
        None => Ok(None),
        Some(0) => Ok(Some(false)),
        Some(1) => Ok(Some(true)),
        Some(other) => Err(other),
    }
}

/// Whether `sat` is a total that [`sat_to_act`] converts.
pub fn is_on_sat_scale(sat: u32) -> (yes: bool)
    ensures
        yes == on_sat_scale(sat as int),
{
    SAT_MIN <= sat && sat <= SAT_MAX
}

/// Whether `act` is a composite that [`act_to_sat`] converts.
pub fn is_on_act_scale(act: u32) -> (yes: bool)
    ensures
        yes == on_act_scale(act as int),
{
    ACT_MIN <= act && act <= ACT_MAX
}

/// What is left of `text` when `prefix` is taken from its start; nothing
/// where `text` does not start with `prefix`.
pub open spec fn stripped_prefix(text: Seq<char>, prefix: Seq<char>) -> Option<Seq<char>> {
    if prefix.is_prefix_of(text) {
        Some(text.skip(prefix.len() as int))
    } else {
        None
    }
}

/// What is left of `text` when `suffix` is taken from its end; nothing
/// where `text` does not end with `suffix`.
pub open spec fn stripped_suffix(text: Seq<char>, suffix: Seq<char>) -> Option<Seq<char>> {
    if suffix.is_suffix_of(text) {
        Some(text.take(text.len() - suffix.len()))
    } else {
        None
    }
}

/// Whether the `count` characters of `text` from position `at` on are the
/// first `count` characters of `pattern`.
fn matches_at(text: &str, at: usize, pattern: &str, count: usize) -> (yes: bool)
    requires
        at + count <= text@.len(),
        at + count <= usize::MAX,
        count <= pattern@.len(),
    ensures
        yes == (text@.subrange(at as int, at + count) == pattern@.take(count as int)),
{
    let mut i: usize = 0;
    while i < count
        invariant
            i <= count,
            at + count <= text@.len(),
            at + count <= usize::MAX,
            count <= pattern@.len(),
            text@.subrange(at as int, at + i) == pattern@.take(i as int),
        decreases count - i,
    {
        if text.get_char(at + i) != pattern.get_char(i) {
            proof {
                let whole = text@.subrange(at as int, at + count);
                assert(whole[i as int] == text@[at + i]);
                assert(pattern@.take(count as int)[i as int] == pattern@[i as int]);
            }
            return false;
        }
        proof {
            assert(text@.subrange(at as int, at + i + 1) == text@.subrange(
                at as int,
                at + i,
            ).push(text@[at + i]));
            assert(pattern@.take(i + 1) == pattern@.take(i as int).push(pattern@[i as int]));
        }
        i = i + 1;
    }
    true
}

/// Takes `prefix` from the start of `text`.
pub fn strip_prefix<'a>(text: &'a str, prefix: &str) -> (out: Option<&'a str>)
    ensures
        match out {
            Some(rest) => stripped_prefix(text@, prefix@) == Some(rest@),
            None => stripped_prefix(text@, prefix@) is None,
        },
{
    let length = text.unicode_len();
    let count = prefix.unicode_len();
    if count > length {
        return None;
    }
    proof {
        assert(prefix@.take(count as int) == prefix@);
    }
    if matches_at(text, 0, prefix, count) {
        let rest = text.substring_char(count, length);
        proof {
            assert(text@.skip(count as int) == text@.subrange(count as int, length as int));
        }
        Some(rest)
    } else {
        None
    }
}

/// Takes `suffix` from the end of `text`.
pub fn strip_suffix<'a>(text: &'a str, suffix: &str) -> (out: Option<&'a str>)
    ensures
        match out {
            Some(rest) => stripped_suffix(text@, suffix@) == Some(rest@),
            None => stripped_suffix(text@, suffix@) is None,
        },
{
    let length = text.unicode_len();
    let count = suffix.unicode_len();
    if count > length {
        return None;
    }
    proof {
        assert(suffix@.take(count as int) == suffix@);
    }
    if matches_at(text, length - count, suffix, count) {
        let rest = text.substring_char(0, length - count);
        proof {
            assert(text@.take(length - count) == text@.subrange(0, length - count));
        }
        Some(rest)
    } else {
        None
    }
}

/// Whether two texts are the same, character by character.
pub fn same_text(left: &str, right: &str) -> (yes: bool)
    ensures
        yes == (left@ == right@),
{
    let length = left.unicode_len();
    if right.unicode_len() != length {
        return false;
    }
    proof {
        assert(left@.subrange(0, length as int) == left@);
        assert(right@.take(length as int) == right@);
    }
    matches_at(left, 0, right, length)
}

} // verus!
