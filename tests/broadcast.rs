use pattern_udfs::broadcast::EvalError;
use pattern_udfs::column::Column;
use pattern_udfs::pattern::Pattern;
use pattern_udfs::position::{regexp_position, regexp_position_from, regexp_position_nth};

fn pat(p: &str) -> Option<Pattern> {
    Some(Pattern::decode(p.to_string()))
}

fn text(s: &str) -> Option<String> {
    Some(s.to_string())
}

#[test]
fn null_in_any_operand_gives_null() {
    let pats = Column::Array(vec![pat("a"), None, pat("a"), pat("a")]);
    let hay = Column::Array(vec![text("ba"), text("ba"), None, text("ba")]);
    let start = Column::Array(vec![Some(1), Some(1), Some(1), None]);
    let occ = Column::Scalar(Some(1));
    let from = regexp_position_from(&pats, &hay, &start).unwrap();
    assert_eq!(from, vec![Some(2), None, None, None]);
    let nth = regexp_position_nth(&pats, &hay, &start, &occ).unwrap();
    assert_eq!(nth, vec![Some(2), None, None, None]);
    let first = regexp_position(&pats, &hay).unwrap();
    assert_eq!(first, vec![Some(2), None, None, Some(2)]);
}

#[test]
fn scalar_null_operand_nulls_every_row() {
    let hay = Column::Array(vec![text("a"), text("b")]);
    let start = Column::Scalar(None);
    let out = regexp_position_from(&Column::Scalar(pat("a")), &hay, &start).unwrap();
    assert_eq!(out, vec![None, None]);
}

#[test]
fn null_scalar_pattern_gives_all_null() {
    let hay = Column::Array(vec![text("a"), text("b"), text("c")]);
    let out = regexp_position(&Column::Scalar(None), &hay).unwrap();
    assert_eq!(out, vec![None, None, None]);
}

#[test]
fn all_scalar_gives_one_row() {
    let out = regexp_position(&Column::Scalar(pat("c")), &Column::Scalar(text("abc"))).unwrap();
    assert_eq!(out, vec![Some(3)]);
}

#[test]
fn scalar_pattern_equals_repeated_array() {
    let hay = Column::Array(vec![text("abcabc"), None, text("xabc"), text("")]);
    let start = Column::Array(vec![Some(2), Some(1), None, Some(1)]);
    let scalar = regexp_position_from(&Column::Scalar(pat("a.c")), &hay, &start).unwrap();
    let array = Column::Array(vec![pat("a.c"); 4]);
    let repeated = regexp_position_from(&array, &hay, &start).unwrap();
    assert_eq!(scalar, repeated);
}

#[test]
fn bad_scalar_pattern_fails_whole_call() {
    let hay = Column::Array(vec![None, text("abc")]);
    match regexp_position(&Column::Scalar(pat("(")), &hay) {
        Err(EvalError::PatternCompile { pattern, message }) => {
            assert_eq!(pattern, "(");
            assert!(!message.is_empty());
        }
        other => panic!("expected a compile error, got {:?}", other),
    }
}

#[test]
fn bad_array_pattern_fails_whole_call() {
    let pats = Column::Array(vec![pat("a"), pat("[z"), pat("(")]);
    let hay = Column::Scalar(text("abc"));
    match regexp_position(&pats, &hay) {
        Err(EvalError::PatternCompile { pattern, .. }) => assert_eq!(pattern, "[z"),
        other => panic!("expected a compile error, got {:?}", other),
    }
}

#[test]
fn null_array_pattern_is_not_compiled() {
    let pats = Column::Array(vec![None, pat("b")]);
    let hay = Column::Scalar(text("abc"));
    assert_eq!(regexp_position(&pats, &hay).unwrap(), vec![None, Some(2)]);
}

#[test]
fn bad_pattern_fails_for_repeated_array_too() {
    let hay = Column::Array(vec![text("abc"), None]);
    let scalar = regexp_position(&Column::Scalar(pat("(")), &hay);
    let array = regexp_position(&Column::Array(vec![pat("("); 2]), &hay);
    assert!(scalar.is_err());
    assert_eq!(scalar, array);
}

#[test]
fn empty_batch() {
    let hay: Column<String> = Column::Array(vec![]);
    assert_eq!(regexp_position(&Column::Array(vec![]), &hay).unwrap(), vec![]);
    assert_eq!(regexp_position(&Column::Scalar(pat("a")), &hay).unwrap(), vec![]);
}
