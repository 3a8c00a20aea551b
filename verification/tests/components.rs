use parse_report::error::{enumerate, parsing_error_message, underline, Error};
use parse_report::source::{Position, Span};
use parse_report::text::dec_str;

fn show(x: &&str) -> String {
    x.to_string()
}

#[test]
fn enumerate_single_item() {
    assert_eq!(enumerate(&vec!["alpha"], show), "alpha");
}

#[test]
fn enumerate_two_items() {
    assert_eq!(enumerate(&vec!["alpha", "beta"], show), "alpha or beta");
}

#[test]
fn enumerate_three_items() {
    assert_eq!(
        enumerate(&vec!["alpha", "beta", "gamma"], show),
        "alpha, beta, or gamma"
    );
}

#[test]
fn enumerate_four_items() {
    assert_eq!(enumerate(&vec!["a", "b", "c", "d"], show), "a, b, c, or d");
}

#[test]
fn message_both_sets() {
    assert_eq!(
        parsing_error_message(&vec!["p"], &vec!["n1", "n2"], show),
        "unexpected n1 or n2; expected p"
    );
}

#[test]
fn message_negatives_only() {
    let no_rules: Vec<&str> = vec![];
    assert_eq!(
        parsing_error_message(&no_rules, &vec!["n"], show),
        "unexpected n"
    );
}

#[test]
fn message_positives_only() {
    let no_rules: Vec<&str> = vec![];
    assert_eq!(
        parsing_error_message(&vec!["p1", "p2", "p3"], &no_rules, show),
        "expected p1, p2, or p3"
    );
}

#[test]
fn message_no_sets() {
    let no_rules: Vec<&str> = vec![];
    assert_eq!(
        parsing_error_message(&no_rules, &no_rules, show),
        "unknown parsing error"
    );
}

#[test]
fn underline_wide_span() {
    let input = "ab\ncd\nef";
    let span = Span::new(input, 3, 7).unwrap();
    let error: Error<u32> = Error::CustomErrorSpan {
        message: "spanning error".to_owned(),
        span: span,
    };
    assert_eq!(underline(&error, 0), "^--^");
    assert_eq!(underline(&error, 2), "  ^--^");
}

#[test]
fn underline_narrow_spans() {
    let input = "ab\ncd\nef";
    let one = Span::new(input, 4, 5).unwrap();
    let error_one: Error<u32> = Error::CustomErrorSpan {
        message: "one wide".to_owned(),
        span: one,
    };
    assert_eq!(underline(&error_one, 0), "^");
    let zero = Span::new(input, 4, 4).unwrap();
    let error_zero: Error<u32> = Error::CustomErrorSpan {
        message: "zero wide".to_owned(),
        span: zero,
    };
    assert_eq!(underline(&error_zero, 3), "   ^");
}

#[test]
fn underline_point_marker() {
    let input = "ab\ncd\nef";
    let pos = Position::new(input, 4).unwrap();
    let attempt: Error<u32> = Error::ParsingError {
        positives: vec![1],
        negatives: vec![],
        pos: pos,
    };
    assert_eq!(underline(&attempt, 0), "^---");
    assert_eq!(underline(&attempt, 3), "   ^---");
    let custom: Error<u32> = Error::CustomErrorPos {
        message: "point".to_owned(),
        pos: pos,
    };
    assert_eq!(underline(&custom, 1), " ^---");
}

#[test]
fn message_of_record() {
    let input = "ab\ncd\nef";
    let pos = Position::new(input, 4).unwrap();
    let attempt: Error<u32> = Error::ParsingError {
        positives: vec![1, 2, 3],
        negatives: vec![4, 5, 6],
        pos: pos,
    };
    assert_eq!(attempt.message(), "unexpected 4, 5, or 6; expected 1, 2, or 3");
    let custom: Error<u32> = Error::CustomErrorPos {
        message: "stored text".to_owned(),
        pos: pos,
    };
    assert_eq!(custom.message(), "stored text");
}

#[test]
fn description_of_record() {
    let input = "ab\ncd\nef";
    let pos = Position::new(input, 4).unwrap();
    let attempt: Error<u32> = Error::ParsingError {
        positives: vec![1],
        negatives: vec![],
        pos: pos,
    };
    assert_eq!(attempt.description(), "parsing error");
    let custom: Error<u32> = Error::CustomErrorPos {
        message: "short text".to_owned(),
        pos: pos,
    };
    assert_eq!(custom.description(), "short text");
}

#[test]
fn rename_keeps_custom_records() {
    let input = "ab\ncd\nef";
    let pos = Position::new(input, 4).unwrap();
    let custom_pos: Error<u32> = Error::CustomErrorPos {
        message: "kept".to_owned(),
        pos: pos,
    };
    assert_eq!(custom_pos.clone().renamed_rules(|_n| String::new()), custom_pos);
    let span = Span::new(input, 3, 7).unwrap();
    let custom_span: Error<u32> = Error::CustomErrorSpan {
        message: "kept too".to_owned(),
        span: span,
    };
    assert_eq!(custom_span.clone().renamed_rules(|_n| String::new()), custom_span);
}

#[test]
fn rename_turns_attempt_into_custom() {
    let input = "ab\ncd\nef";
    let pos = Position::new(input, 4).unwrap();
    let attempt: Error<u32> = Error::ParsingError {
        positives: vec![1],
        negatives: vec![],
        pos: pos,
    };
    let renamed = attempt.renamed_rules(|n| format!("rule {}", n));
    assert!(matches!(renamed, Error::CustomErrorPos { .. }));
    assert_eq!(renamed.message(), "expected rule 1");
}

#[test]
fn position_lines_and_columns() {
    let input = "ab\ncd\nef";
    assert_eq!(Position::new(input, 0).unwrap().line_col(), (1, 1));
    assert_eq!(Position::new(input, 2).unwrap().line_col(), (1, 3));
    assert_eq!(Position::new(input, 3).unwrap().line_col(), (2, 1));
    assert_eq!(Position::new(input, 7).unwrap().line_col(), (3, 2));
    assert_eq!(Position::new(input, 8).unwrap().line_col(), (3, 3));
}

#[test]
fn position_line_text() {
    let input = "ab\ncd\nef";
    assert_eq!(Position::new(input, 0).unwrap().line_of(), "ab");
    assert_eq!(Position::new(input, 2).unwrap().line_of(), "ab");
    assert_eq!(Position::new(input, 4).unwrap().line_of(), "cd");
    assert_eq!(Position::new(input, 8).unwrap().line_of(), "ef");
}

#[test]
fn position_on_empty_input() {
    let pos = Position::new("", 0).unwrap();
    assert_eq!(pos.line_col(), (1, 1));
    assert_eq!(pos.line_of(), "");
}

#[test]
fn position_beyond_end_is_refused() {
    assert!(Position::new("ab", 3).is_none());
}

#[test]
fn span_boundaries() {
    let input = "ab\ncd\nef";
    let span = Span::new(input, 3, 7).unwrap();
    assert_eq!(span.start(), 3);
    assert_eq!(span.end(), 7);
    let (a, b) = span.split();
    assert_eq!(a.line_col(), (2, 1));
    assert_eq!(b.line_col(), (3, 2));
    assert_eq!(a.line_of(), "cd");
    assert_eq!(b.line_of(), "ef");
}

#[test]
fn span_out_of_order_is_refused() {
    assert!(Span::new("ab\ncd\nef", 5, 3).is_none());
    assert!(Span::new("ab", 1, 3).is_none());
}

#[test]
fn decimal_rendering() {
    assert_eq!(dec_str(0), "0");
    assert_eq!(dec_str(7), "7");
    assert_eq!(dec_str(10), "10");
    assert_eq!(dec_str(907), "907");
    assert_eq!(dec_str(18446744073709551615), "18446744073709551615");
}

#[test]
fn display_spanned_custom() {
    let input = "ab\ncd\nef";
    let span = Span::new(input, 3, 7).unwrap();
    let error: Error<u32> = Error::CustomErrorSpan {
        message: "spanning error".to_owned(),
        span: span,
    };
    assert_eq!(
        error.to_display_text(),
        vec![
            " --> 2:1",
            "  |",
            "2 | cd",
            "  | ^--^",
            "  |",
            "  = spanning error",
        ]
        .join("\n")
    );
}

#[test]
fn display_wide_gutter() {
    let input = "a\nb\nc\nd\ne\nf\ng\nh\ni\nj\nk\nlm";
    let pos = Position::new(input, 23).unwrap();
    let error: Error<u32> = Error::CustomErrorPos {
        message: "error: big one".to_owned(),
        pos: pos,
    };
    assert_eq!(
        error.to_display_text(),
        vec![
            "  --> 12:2",
            "   |",
            "12 | lm",
            "   |  ^---",
            "   |",
            "   = error: big one",
        ]
        .join("\n")
    );
}

#[test]
fn display_on_empty_input() {
    let pos = Position::new("", 0).unwrap();
    let error: Error<u32> = Error::CustomErrorPos {
        message: "nothing to parse".to_owned(),
        pos: pos,
    };
    assert_eq!(
        error.to_display_text(),
        vec![" --> 1:1", "  |", "1 | ", "  | ^---", "  |", "  = nothing to parse",].join("\n")
    );
}
