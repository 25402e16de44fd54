use pattern_udfs::column::Column;
use pattern_udfs::pattern::{compile, Matcher, Pattern};
use pattern_udfs::position::{
    first_position, position_from, position_nth, regexp_position, regexp_position_from,
    regexp_position_nth,
};

fn matcher(p: &str) -> Matcher {
    compile(&Pattern::decode(p.to_string())).unwrap()
}

#[test]
fn first_match_of_abc() {
    assert_eq!(first_position(&matcher("a.c"), "abcabcabc"), 1);
}

#[test]
fn from_fourth_offset() {
    assert_eq!(position_from(&matcher("a.c"), "abcabcabc", 4), 4);
}

#[test]
fn from_fifth_offset() {
    assert_eq!(position_from(&matcher("a.c"), "abcabcabc", 5), 7);
}

#[test]
fn from_past_the_end() {
    assert_eq!(position_from(&matcher("a.c"), "abcabcabc", 10), -1);
}

#[test]
fn second_occurrence() {
    assert_eq!(position_nth(&matcher("a.c"), "abcabcabc", 1, 2), 4);
}

#[test]
fn third_occurrence() {
    assert_eq!(position_nth(&matcher("a.c"), "abcabcabc", 1, 3), 7);
}

#[test]
fn fourth_occurrence_missing() {
    assert_eq!(position_nth(&matcher("a.c"), "abcabcabc", 1, 4), -1);
}

#[test]
fn no_match_is_minus_one() {
    assert_eq!(first_position(&matcher("xyz"), "abcabcabc"), -1);
}

#[test]
fn start_one_equals_plain_search() {
    let m = matcher("b+");
    for hay in ["abbc", "b", "xyz", "ab"] {
        assert_eq!(position_from(&m, hay, 1), first_position(&m, hay));
    }
}

#[test]
fn start_one_on_empty_haystack() {
    let m = matcher("a*");
    assert_eq!(first_position(&m, ""), 1);
    assert_eq!(position_from(&m, "", 1), -1);
}

#[test]
fn first_occurrence_equals_search_from() {
    let m = matcher("a.c");
    for start in 1..=9 {
        assert_eq!(
            position_nth(&m, "abcabcabc", start, 1),
            position_from(&m, "abcabcabc", start)
        );
    }
}

#[test]
fn anchor_sees_context_only_from_offset() {
    let m = matcher("^b");
    assert_eq!(position_from(&m, "ab", 2), -1);
    assert_eq!(position_nth(&m, "ab", 2, 1), 2);
}

#[test]
fn start_beyond_length_any_pattern() {
    for p in ["", "a*", "x", "."] {
        let m = matcher(p);
        assert_eq!(position_from(&m, "", 3), -1);
        assert_eq!(position_from(&m, "abc", 6), -1);
        assert_eq!(position_nth(&m, "abc", 4, 1), -1);
        assert_eq!(position_from(&m, "abc", i64::MAX), -1);
    }
}

#[test]
fn start_below_one() {
    let m = matcher("a");
    assert_eq!(position_from(&m, "abc", 0), -1);
    assert_eq!(position_from(&m, "abc", -5), -1);
    assert_eq!(position_nth(&m, "abc", 0, 1), -1);
}

#[test]
fn occurrence_below_one() {
    let m = matcher("a.c");
    assert_eq!(position_nth(&m, "abcabcabc", 1, 0), -1);
    assert_eq!(position_nth(&m, "abcabcabc", 1, -3), -1);
    assert_eq!(position_nth(&m, "abcabcabc", 1, i64::MIN), -1);
}

#[test]
fn huge_occurrence() {
    assert_eq!(position_nth(&matcher("a"), "aaa", 1, i64::MAX), -1);
}

#[test]
fn offsets_count_bytes() {
    let m = matcher("l");
    assert_eq!(first_position(&m, "h\u{e9}llo"), 4);
    assert_eq!(position_nth(&m, "h\u{e9}llo", 4, 2), 5);
}

#[test]
fn start_inside_character() {
    assert_eq!(position_nth(&matcher("l"), "h\u{e9}llo", 3, 1), -1);
}

#[test]
fn start_at_end_of_haystack() {
    let m = matcher("c$");
    assert_eq!(position_from(&m, "abc", 3), 3);
    assert_eq!(position_nth(&m, "abc", 3, 1), 3);
}

fn pat(p: &str) -> Option<Pattern> {
    Some(Pattern::decode(p.to_string()))
}

fn text(s: &str) -> Option<String> {
    Some(s.to_string())
}

#[test]
fn column_first_positions() {
    let hay = Column::Array(vec![text("abcabcabc"), None, text("xx"), text("zabc")]);
    let out = regexp_position(&Column::Scalar(pat("a.c")), &hay).unwrap();
    assert_eq!(out, vec![Some(1), None, Some(-1), Some(2)]);
}

#[test]
fn column_positions_from() {
    let hay = Column::Scalar(text("abcabcabc"));
    let start = Column::Array(vec![Some(1), Some(4), Some(5), Some(10), None]);
    let out = regexp_position_from(&Column::Scalar(pat("a.c")), &hay, &start).unwrap();
    assert_eq!(out, vec![Some(1), Some(4), Some(7), Some(-1), None]);
}

#[test]
fn column_positions_nth() {
    let hay = Column::Scalar(text("abcabcabc"));
    let start = Column::Scalar(Some(1));
    let occ = Column::Array(vec![Some(2), Some(3), Some(4), Some(0), None]);
    let out = regexp_position_nth(&Column::Scalar(pat("a.c")), &hay, &start, &occ).unwrap();
    assert_eq!(out, vec![Some(4), Some(7), Some(-1), Some(-1), None]);
}

#[test]
fn array_patterns_per_row() {
    let pats = Column::Array(vec![pat("b"), pat("c"), None, pat("a")]);
    let hay = Column::Scalar(text("abc"));
    let out = regexp_position(&pats, &hay).unwrap();
    assert_eq!(out, vec![Some(2), Some(3), None, Some(1)]);
}
