use sql_facade::dialect::canonical_name;
use sql_facade::dialect::get_dialect;
use sql_facade::dialect::Dialect;
use sql_facade::get_supported_dialects;
use sql_facade::ParserOptions;

#[test]
fn supported_dialects_exact_list_in_order() {
    let names = get_supported_dialects();
    let expected = vec![
        "generic",
        "ansi",
        "mysql",
        "postgresql",
        "sqlite",
        "snowflake",
        "redshift",
        "mssql",
        "clickhouse",
        "bigquery",
        "duckdb",
        "databricks",
        "hive",
    ];
    assert_eq!(names.len(), expected.len());
    for i in 0..expected.len() {
        assert_eq!(names[i], expected[i]);
    }
}

#[test]
fn every_supported_name_resolves_and_is_stable() {
    for name in get_supported_dialects() {
        let first = get_dialect(&name);
        let second = get_dialect(&name);
        assert_eq!(first, second);
        assert_eq!(canonical_name(first), name);
    }
}

#[test]
fn supported_names_resolve_to_distinct_dialects() {
    let names = get_supported_dialects();
    for i in 0..names.len() {
        for j in 0..names.len() {
            if i != j {
                assert!(get_dialect(&names[i]) != get_dialect(&names[j]));
            }
        }
    }
}

#[test]
fn resolution_is_case_insensitive() {
    assert_eq!(get_dialect("MYSQL"), Dialect::MySql);
    assert_eq!(get_dialect("MySql"), Dialect::MySql);
    assert_eq!(get_dialect("Snowflake"), Dialect::Snowflake);
    assert_eq!(get_dialect("HIVE"), Dialect::Hive);
}

#[test]
fn aliases_resolve_to_the_canonical_variant() {
    assert_eq!(get_dialect("postgres"), Dialect::PostgreSql);
    assert_eq!(get_dialect("postgresql"), Dialect::PostgreSql);
    assert_eq!(get_dialect("sqlserver"), Dialect::MsSql);
    assert_eq!(get_dialect("mssql"), Dialect::MsSql);
    assert_eq!(get_dialect("Postgres"), Dialect::PostgreSql);
    assert_eq!(get_dialect("SQLSERVER"), Dialect::MsSql);
}

#[test]
fn resolution_agrees_with_unicode_lowercasing() {
    // U+212A, the Kelvin sign, lowercases to 'k': the one character whose
    // Unicode lowercase is an ASCII letter.
    assert_eq!(get_dialect("clic\u{212A}house"), Dialect::ClickHouse);
    assert_eq!(get_dialect("duc\u{212A}db"), Dialect::DuckDb);
    assert_eq!(get_dialect("snowfla\u{212A}e"), Dialect::Snowflake);
    assert_eq!(get_dialect("\u{212A}elvin"), Dialect::Generic);
}

#[test]
fn unrecognized_names_fall_back_to_generic() {
    assert_eq!(get_dialect("oracle"), Dialect::Generic);
    assert_eq!(get_dialect("teradata"), Dialect::Generic);
    assert_eq!(get_dialect(""), Dialect::Generic);
    assert_eq!(get_dialect("not a dialect"), Dialect::Generic);
    assert_eq!(get_dialect("mysql2"), Dialect::Generic);
}

#[test]
fn default_options_have_no_limit_and_no_trailing_commas() {
    let options = ParserOptions::default();
    assert!(!options.trailing_commas);
    assert!(options.recursion_limit.is_none());
}
