use pattern_udfs::broadcast::EvalError;
use pattern_udfs::column::Column;
use pattern_udfs::hamming::{hamming, hamming_distance, Distances, TextWidth};
use pattern_udfs::invoke::{
    invoke_hamming_distance, invoke_regexp_position, invoke_regexp_position_from,
    invoke_regexp_position_nth, Arg,
};
use pattern_udfs::pattern::Pattern;
use pattern_udfs::seconds::human_readable_seconds;

fn text(s: &str) -> Option<String> {
    Some(s.to_string())
}

#[test]
fn hamming_karolin_kathrin() {
    assert_eq!(hamming_distance("karolin", "kathrin"), 3);
}

#[test]
fn hamming_unequal_lengths() {
    assert_eq!(hamming_distance("abc", "abxyz"), 1);
    assert_eq!(hamming_distance("", "abc"), 0);
    assert_eq!(hamming_distance("\u{e9}a", "ea"), 1);
}

#[test]
fn hamming_column_widths() {
    let a = Column::Array(vec![text("karolin"), None, text("ab")]);
    let b = Column::Scalar(text("kathrin"));
    assert_eq!(
        hamming(&a, &b, TextWidth::Narrow),
        Distances::Int32(vec![Some(3), None, Some(2)])
    );
    assert_eq!(
        hamming(&a, &b, TextWidth::Large),
        Distances::Int64(vec![Some(3), None, Some(2)])
    );
}

#[test]
fn seconds_as_text() {
    assert_eq!(human_readable_seconds(9420), "2h 37m");
    assert_eq!(human_readable_seconds(0), "0s");
}

fn position_args() -> Vec<Arg> {
    vec![
        Arg::Text(TextWidth::Narrow, Column::Scalar(text("abcabcabc"))),
        Arg::Pattern(Column::Scalar(Some(Pattern::decode("a.c".to_string())))),
        Arg::Int64(Column::Scalar(Some(1))),
        Arg::Int64(Column::Scalar(Some(2))),
    ]
}

#[test]
fn invoke_each_shape() {
    let mut args = position_args();
    assert_eq!(invoke_regexp_position_nth(&args).unwrap(), vec![Some(4)]);
    args.pop();
    assert_eq!(invoke_regexp_position_from(&args).unwrap(), vec![Some(1)]);
    args.pop();
    assert_eq!(invoke_regexp_position(&args).unwrap(), vec![Some(1)]);
}

#[test]
fn invoke_wrong_arity() {
    let args = position_args();
    assert_eq!(
        invoke_regexp_position(&args),
        Err(EvalError::Arity { expected: 2, got: 4 })
    );
    assert_eq!(
        invoke_hamming_distance(&vec![]),
        Err(EvalError::Arity { expected: 2, got: 0 })
    );
}

#[test]
fn invoke_plain_text_is_not_a_pattern() {
    let args = vec![
        Arg::Text(TextWidth::Narrow, Column::Scalar(text("abc"))),
        Arg::Text(TextWidth::Narrow, Column::Scalar(text("b"))),
    ];
    assert_eq!(
        invoke_regexp_position(&args),
        Err(EvalError::UnsupportedType { column_type: "Utf8".to_string() })
    );
}

#[test]
fn invoke_wrong_start_type() {
    let mut args = position_args();
    args.pop();
    args[2] = Arg::Text(TextWidth::Large, Column::Scalar(text("1")));
    assert_eq!(
        invoke_regexp_position_from(&args),
        Err(EvalError::UnsupportedType { column_type: "LargeUtf8".to_string() })
    );
}

#[test]
fn invoke_hamming_by_width() {
    let args = vec![
        Arg::Text(TextWidth::View, Column::Scalar(text("karolin"))),
        Arg::Text(TextWidth::Narrow, Column::Scalar(text("kathrin"))),
    ];
    assert_eq!(invoke_hamming_distance(&args), Ok(Distances::Int32(vec![Some(3)])));
    let args = vec![
        Arg::Int64(Column::Scalar(Some(1))),
        Arg::Text(TextWidth::Narrow, Column::Scalar(text("kathrin"))),
    ];
    assert_eq!(
        invoke_hamming_distance(&args),
        Err(EvalError::UnsupportedType { column_type: "Int64".to_string() })
    );
}
