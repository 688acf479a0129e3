use finshell::context::Context;
use finshell::errors::{
    string_with_arrows, DisallowedCharError, DivisionByZeroError, Error, ErrorType, Halt,
    InvalidPowerError, RunTimeError, SyntaxError,
};
use finshell::floats::FloatTable;
use finshell::lexer::Lexer;
use finshell::parser::Parser;
use finshell::position::Position;
use finshell::symbols::SymbolMap;

fn at(index: i64, line: i64, column: i64, text: &str) -> Option<Position> {
    Some(Position::new(
        index,
        line,
        column,
        "f".to_string(),
        text.to_string(),
    ))
}

#[test]
fn illegal_character_is_written_with_a_marker() {
    let floats = FloatTable::new();
    let mut lexer = Lexer::new("f".to_string(), "1 + $".to_string());
    match lexer.tokenize(&floats) {
        Err(Halt::Error(ErrorType::DisallowedCharError(e))) => assert_eq!(
            e.as_string(),
            "Illegal Character: $, File f, line 1, col 4\n\n1 + $\n    ^"
        ),
        other => panic!("{:?}", other),
    }
}

#[test]
fn span_without_end_has_no_marker() {
    let floats = FloatTable::new();
    let mut lexer = Lexer::new("test".to_string(), "3+4)".to_string());
    let tokens = lexer.tokenize(&floats).unwrap();
    let mut parser = Parser::new(tokens);
    match parser.parse() {
        Err(ErrorType::SyntaxError(e)) => assert_eq!(
            e.as_string(),
            "Syntax Error: Expected '+', '-', '*', or '/', File test, line 1, col 3\n\n3+4)\n   "
        ),
        other => panic!("{:?}", other),
    }
}

#[test]
fn markers_span_the_columns() {
    assert_eq!(
        string_with_arrows(&at(2, 0, 2, "1+234*5"), &at(5, 0, 5, "1+234*5")),
        "1+234*5\n  ^^^"
    );
    assert_eq!(
        string_with_arrows(&at(0, 0, 0, "12"), &at(2, 0, 2, "12")),
        "12\n^^"
    );
    assert_eq!(string_with_arrows(&at(0, 0, 0, ""), &None), "\n");
}

#[test]
fn tabs_are_left_out_of_the_excerpt() {
    assert_eq!(
        string_with_arrows(&at(5, 0, 5, "\t1 + $"), &at(6, 0, 6, "\t1 + $")),
        "1 + $\n     ^"
    );
}

#[test]
fn span_over_several_lines_marks_each_line() {
    let text = "ab\ncd\nef";
    assert_eq!(
        string_with_arrows(&at(1, 0, 1, text), &at(7, 2, 1, text)),
        "ab\n ^\ncd\n^^\nef\n^"
    );
    assert_eq!(
        string_with_arrows(&at(4, 1, 1, text), &at(5, 1, 2, text)),
        "cd\n ^"
    );
    assert_eq!(
        string_with_arrows(&at(4, 1, 1, text), &at(9, 4, 1, text)),
        "cd\n ^\nef\n^^"
    );
}

#[test]
fn span_that_ends_before_it_starts_has_no_excerpt() {
    assert_eq!(
        string_with_arrows(&at(4, 1, 1, "ab\ncd"), &at(1, 0, 1, "ab\ncd")),
        ""
    );
    assert_eq!(
        string_with_arrows(&at(3, 0, 3, "abcdef"), &at(1, 0, 1, "abcdef")),
        "abcdef\n   "
    );
    assert_eq!(
        string_with_arrows(&at(-5, 0, 0, "ab"), &at(70, 0, 1, "ab")),
        "ab\n^"
    );
}

#[test]
fn diagnostic_without_a_start_has_no_excerpt() {
    let error = Error::new(None, None, "Name".to_string(), "message".to_string());
    assert_eq!(
        error.as_string(),
        "Name: message, File Unknown File, line -1, col -1\n\n"
    );
    assert_eq!(string_with_arrows(&None, &at(0, 0, 0, "x")), "");
}

#[test]
fn each_kind_has_its_name() {
    let start = at(0, 0, 0, "1/0");
    let end = at(1, 0, 1, "1/0");
    assert_eq!(
        DisallowedCharError::new(start.clone(), end.clone(), "m".to_string()).as_string(),
        "Illegal Character: m, File f, line 1, col 0\n\n1/0\n^"
    );
    assert_eq!(
        SyntaxError::new(start.clone(), end.clone(), "m".to_string()).as_string(),
        "Syntax Error: m, File f, line 1, col 0\n\n1/0\n^"
    );
    assert_eq!(
        DivisionByZeroError::new(start.clone(), end.clone(), "m".to_string()).as_string(),
        "DivisionByZero Error: m, File f, line 1, col 0\n\n1/0\n^"
    );
    assert_eq!(
        InvalidPowerError::new(start.clone(), end.clone(), "m".to_string()).as_string(),
        "InvalidPower Error: m, File f, line 1, col 0\n\n1/0\n^"
    );
    let kept = Error::new(
        start.clone(),
        end.clone(),
        "Name".to_string(),
        "message".to_string(),
    );
    assert_eq!(kept.pos_begin, start);
    assert_eq!(kept.pos_end, end);
    assert_eq!(kept.error_name, "Name");
    assert_eq!(kept.error_message, "message");
    assert_eq!(kept.clone().as_string(), kept.as_string());
}

#[test]
fn line_is_counted_from_one() {
    let error = SyntaxError::new(
        at(4, 1, 1, "ab\ncd"),
        at(5, 1, 2, "ab\ncd"),
        "m".to_string(),
    );
    assert_eq!(
        error.as_string(),
        "Syntax Error: m, File f, line 2, col 1\n\ncd\n ^"
    );
    let far = SyntaxError::new(at(0, i64::MAX, 0, "x"), None, "m".to_string());
    assert_eq!(
        far.as_string(),
        "Syntax Error: m, File f, line 9223372036854775808, col 0\n\nx\n"
    );
}

#[test]
fn traceback_names_the_frames_outermost_first() {
    let root = Context::init("Program");
    let error = RunTimeError::new(
        at(2, 0, 2, "1+x"),
        at(3, 0, 3, "1+x"),
        "x is not defined".to_string(),
        root.clone(),
    );
    assert_eq!(
        error.traceback_error(),
        "Traceback from most recent callback: \nFile: f Line 0 Col 2, in Program \n"
    );
    assert_eq!(
        error.as_string(),
        "Traceback from most recent callback: \nFile: f Line 0 Col 2, in Program \n Runtime Error: x is not defined\n\n1+x\n  ^"
    );
    let inner = Context::new(
        "inner",
        Some(Box::new(root)),
        at(5, 0, 5, "outer text"),
        Some(SymbolMap::new()),
    );
    let innermost = Context::new(
        "innermost",
        Some(Box::new(inner)),
        at(7, 3, 1, "middle"),
        None,
    );
    let nested = RunTimeError::new(
        at(2, 0, 2, "1+x"),
        None,
        "m".to_string(),
        innermost,
    );
    assert_eq!(
        nested.traceback_error(),
        "Traceback from most recent callback: \nFile: f Line 0 Col 5, in Program \nFile: f Line 3 Col 1, in inner \nFile: f Line 0 Col 2, in innermost \n"
    );
}
