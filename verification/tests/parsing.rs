use sql_facade::format_sql;
use sql_facade::parse_sql;
use sql_facade::parse_sql_to_json_string;
use sql_facade::parse_sql_to_string;
use sql_facade::parse_sql_with_options;
use sql_facade::pipeline::check_syntax;
use sql_facade::pipeline::parse_to_value;
use sql_facade::validate_sql;
use sql_facade::ErrorKind;
use sql_facade::ParserOptions;

#[test]
fn parse_single_select_literal() {
    let value = parse_sql("mysql", "SELECT 1").unwrap();
    let statements = value.as_array().unwrap();
    assert_eq!(statements.len(), 1);
    assert!(statements[0].get("Query").is_some());
    let rendered = statements[0].to_string();
    assert!(rendered.contains("projection"));
    assert!(rendered.contains("1"));
}

#[test]
fn parse_incomplete_where_clause_is_a_syntax_error() {
    let err = parse_sql("generic", "SELECT * FROM t WHERE").unwrap_err();
    assert!(!err.message.is_empty());
    assert!(err.message.contains("EOF") || err.message.contains("xpected"));
    assert!(err.line.is_none());
    assert!(err.column.is_none());
    let typed = parse_to_value("generic", "SELECT * FROM t WHERE", None).unwrap_err();
    assert_eq!(typed.kind, ErrorKind::Syntax);
    assert_eq!(typed.message, err.message);
}

#[test]
fn unterminated_string_is_a_lexical_error() {
    let typed = check_syntax("generic", "SELECT 'abc").unwrap_err();
    assert_eq!(typed.kind, ErrorKind::Lexical);
    assert!(!typed.message.is_empty());
}

#[test]
fn validate_postgresql_select() {
    assert_eq!(validate_sql("postgresql", "SELECT 1;").unwrap(), true);
}

#[test]
fn validate_agrees_with_parse() {
    let inputs = [
        ("generic", "SELECT 1"),
        ("generic", "SELECT * FROM t WHERE"),
        ("mysql", "SELECT a, b FROM t WHERE a = 1"),
        ("ansi", "CREATE TABLE t (a INT)"),
        ("generic", "SELECT 'abc"),
        ("sqlite", ""),
    ];
    for (dialect, sql) in inputs {
        assert_eq!(validate_sql(dialect, sql).is_ok(), parse_sql(dialect, sql).is_ok());
    }
}

#[test]
fn unknown_dialect_parses_as_generic() {
    assert_eq!(validate_sql("no such dialect", "SELECT 1").unwrap(), true);
    let a = parse_sql_to_string("no such dialect", "SELECT 1").unwrap();
    let b = parse_sql_to_string("generic", "SELECT 1").unwrap();
    assert_eq!(a, b);
}

#[test]
fn format_normalizes_whitespace_and_casing() {
    assert_eq!(format_sql("ansi", "select   1").unwrap(), "SELECT 1");
}

#[test]
fn format_and_to_string_agree() {
    let sql = "select  a ,  b from t";
    assert_eq!(format_sql("generic", sql).unwrap(), parse_sql_to_string("generic", sql).unwrap());
}

#[test]
fn format_fails_exactly_where_parse_fails() {
    let err = format_sql("generic", "SELECT * FROM t WHERE").unwrap_err();
    let perr = parse_sql("generic", "SELECT * FROM t WHERE").unwrap_err();
    assert_eq!(err.message, perr.message);
}

#[test]
fn canonical_form_is_a_fixed_point() {
    let inputs = [
        ("generic", "select   1,   2"),
        ("generic", "SELECT 1; SELECT 2"),
        ("mysql", "select a from t where b = 'x'"),
        ("postgresql", "insert into t (a) values (1)"),
    ];
    for (dialect, sql) in inputs {
        let once = parse_sql_to_string(dialect, sql).unwrap();
        let twice = parse_sql_to_string(dialect, &once).unwrap();
        assert_eq!(twice, once);
    }
}

#[test]
fn statements_are_joined_by_semicolon_and_newline() {
    let text = parse_sql_to_string("generic", "SELECT 1; SELECT 2").unwrap();
    assert_eq!(text, "SELECT 1;\nSELECT 2");
}

#[test]
fn empty_input_parses_to_no_statements() {
    assert_eq!(validate_sql("generic", "").unwrap(), true);
    assert_eq!(parse_sql_to_string("generic", "").unwrap(), "");
    let value = parse_sql("generic", "").unwrap();
    assert_eq!(value.as_array().unwrap().len(), 0);
}

#[test]
fn json_string_is_pretty_printed() {
    let text = parse_sql_to_json_string("generic", "SELECT 1").unwrap();
    assert!(text.starts_with("["));
    assert!(text.contains("Query"));
    assert!(text.contains('\n'));
}

#[test]
fn json_string_fails_like_parse_on_bad_input() {
    let err = parse_sql_to_json_string("generic", "SELECT * FROM t WHERE").unwrap_err();
    assert!(!err.message.is_empty());
}

#[test]
fn recursion_limit_rejects_deep_nesting() {
    let options = ParserOptions { trailing_commas: false, recursion_limit: Some(3) };
    let err = parse_sql_with_options("generic", "SELECT (((((1)))))", Some(options)).unwrap_err();
    assert!(!err.message.is_empty());
    let typed = parse_to_value("generic", "SELECT (((((1)))))", Some(options)).unwrap_err();
    assert_eq!(typed.kind, ErrorKind::Syntax);
}

#[test]
fn recursion_limit_allows_shallow_nesting() {
    let options = ParserOptions { trailing_commas: false, recursion_limit: Some(40) };
    let value = parse_sql_with_options("generic", "SELECT (((((1)))))", Some(options)).unwrap();
    assert_eq!(value.as_array().unwrap().len(), 1);
}

#[test]
fn absent_options_mean_defaults() {
    let with_none = parse_sql_with_options("generic", "SELECT 1", None).unwrap();
    let plain = parse_sql("generic", "SELECT 1").unwrap();
    assert_eq!(with_none, plain);
    let defaults = ParserOptions::default();
    let with_defaults = parse_sql_with_options("generic", "SELECT 1", Some(defaults)).unwrap();
    assert_eq!(with_defaults, plain);
}

#[test]
fn trailing_commas_flag_is_inert() {
    let off = ParserOptions { trailing_commas: false, recursion_limit: None };
    let on = ParserOptions { trailing_commas: true, recursion_limit: None };
    let a = parse_sql_with_options("generic", "SELECT a FROM t", Some(off)).unwrap();
    let b = parse_sql_with_options("generic", "SELECT a FROM t", Some(on)).unwrap();
    assert_eq!(a, b);
}

#[test]
fn lexical_error_keeps_its_kind_under_a_recursion_limit() {
    let options = ParserOptions { trailing_commas: false, recursion_limit: Some(10) };
    let typed = parse_to_value("generic", "SELECT 'abc", Some(options)).unwrap_err();
    assert_eq!(typed.kind, ErrorKind::Lexical);
    assert!(!typed.message.is_empty());
}

#[test]
fn alias_and_canonical_name_parse_alike() {
    let a = parse_sql_to_string("sqlserver", "SELECT TOP 3 a FROM t").unwrap();
    let b = parse_sql_to_string("mssql", "SELECT TOP 3 a FROM t").unwrap();
    assert_eq!(a, b);
}

#[test]
fn empty_statements_between_delimiters_are_ignored() {
    assert_eq!(parse_sql_to_string("generic", ";;;").unwrap(), "");
    assert_eq!(parse_sql_to_string("generic", "SELECT 1;;").unwrap(), "SELECT 1");
}

#[test]
fn wire_errors_carry_no_location() {
    let err = validate_sql("generic", "SELECT 'abc").unwrap_err();
    assert!(!err.message.is_empty());
    assert!(err.line.is_none());
    assert!(err.column.is_none());
}
