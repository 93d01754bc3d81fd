//! A multi-dialect SQL parsing facade.
//!
//! Given a dialect name and a raw SQL text, the library resolves the dialect,
//! drives the grammar engine over the text, and exposes the result in three
//! projections: a structured value, pretty-printed serialized text, and a
//! canonical re-printed SQL text.  Lexical and syntactic failures are
//! normalized into a single structured error shape.

use vstd::prelude::*;
use vstd::string::StringExecFns;

pub mod dialect;
pub mod engine;
pub mod error;
pub mod options;
pub mod pipeline;

pub use crate::error::ErrorKind;
pub use crate::error::ParseError;
pub use crate::error::SqlError;
pub use crate::options::ParserOptions;

use crate::engine::engine_error_text;
use crate::engine::engine_pretty_text;
use crate::engine::engine_value_ok;
use crate::pipeline::check_syntax;
use crate::pipeline::dialect_key;
use crate::pipeline::parse_to_canonical;
use crate::pipeline::parse_to_pretty;
use crate::pipeline::parse_to_value;
use crate::pipeline::spec_accepts;
use crate::pipeline::spec_canonical_text;
use crate::pipeline::spec_parse_error_message;
use crate::pipeline::spec_parse_ok;
use crate::pipeline::spec_pretty_error_message;
use crate::pipeline::spec_pretty_ok;
use crate::options::spec_limit_of;
use crate::dialect::supported_names;

verus! {

/// Parses SQL under the named dialect and returns the statement sequence
/// as a structured value.
pub fn parse_sql(dialect: &str, sql: &str) -> (r: Result<serde_json::Value, ParseError>)
    ensures
        r is Ok <==> spec_parse_ok(dialect@, sql@, Option::None),
        r is Err ==> (r->Err_0).message@ == spec_parse_error_message(
            dialect@,
            sql@,
            Option::None,
        ),
        r is Err ==> (r->Err_0).message@.len() > 0,
        r is Err ==> (r->Err_0).line is None && (r->Err_0).column is None,
{
    parse_sql_with_options(dialect, sql, Option::None)
}

/// Parses SQL with options: a set recursion limit bounds the parser's
/// nested-construct depth.  Absent options mean the defaults.
pub fn parse_sql_with_options(dialect: &str, sql: &str, options: Option<ParserOptions>) -> (r:
    Result<serde_json::Value, ParseError>)
    ensures
        r is Ok <==> spec_parse_ok(dialect@, sql@, spec_limit_of(options)),
        r is Err ==> (r->Err_0).message@ == spec_parse_error_message(
            dialect@,
            sql@,
            spec_limit_of(options),
        ),
        r is Err ==> (r->Err_0).message@.len() > 0,
        r is Err ==> (r->Err_0).line is None && (r->Err_0).column is None,
{
    match parse_to_value(dialect, sql, options) {
        Ok(v) => Ok(v),
        Err(e) => Err(e.to_wire()),
    }
}

/// Parses SQL and renders the statement sequence as pretty-printed
/// serialized text.
pub fn parse_sql_to_json_string(dialect: &str, sql: &str) -> (r: Result<String, ParseError>)
    ensures
        r is Ok <==> spec_pretty_ok(dialect@, sql@),
        r is Ok ==> (r->Ok_0)@ == engine_pretty_text(dialect_key(dialect@), sql@),
        r is Err ==> (r->Err_0).message@ == spec_pretty_error_message(dialect@, sql@),
        r is Err ==> (r->Err_0).message@.len() > 0,
        r is Err ==> (r->Err_0).line is None && (r->Err_0).column is None,
{
    match parse_to_pretty(dialect, sql) {
        Ok(text) => Ok(text),
        Err(e) => Err(e.to_wire()),
    }
}

/// Parses SQL and re-prints each statement in its canonical form, the
/// statements joined by `;\n`.
pub fn parse_sql_to_string(dialect: &str, sql: &str) -> (r: Result<String, ParseError>)
    ensures
        r is Ok <==> spec_accepts(dialect@, sql@),
        r is Ok ==> (r->Ok_0)@ == spec_canonical_text(dialect@, sql@),
        r is Err ==> (r->Err_0).message@ == engine_error_text(dialect_key(dialect@), sql@),
        r is Err ==> (r->Err_0).message@.len() > 0,
        r is Err ==> (r->Err_0).line is None && (r->Err_0).column is None,
{
    match parse_to_canonical(dialect, sql) {
        Ok(text) => Ok(text),
        Err(e) => Err(e.to_wire()),
    }
}

/// Formats SQL by parsing it and re-printing the canonical form: the same
/// round trip as `parse_sql_to_string`, with the same outcome on every
/// input; an input that does not parse does not format.
pub fn format_sql(dialect: &str, sql: &str) -> (r: Result<String, ParseError>)
    ensures
        r is Ok <==> spec_accepts(dialect@, sql@),
        r is Ok ==> (r->Ok_0)@ == spec_canonical_text(dialect@, sql@),
        r is Err ==> (r->Err_0).message@ == engine_error_text(dialect_key(dialect@), sql@),
        r is Err ==> (r->Err_0).message@.len() > 0,
        r is Err ==> (r->Err_0).line is None && (r->Err_0).column is None,
{
    parse_sql_to_string(dialect, sql)
}

/// Validates SQL: runs the full tokenize-and-parse pipeline and reports
/// only whether it succeeded, never the statements.
pub fn validate_sql(dialect: &str, sql: &str) -> (r: Result<bool, ParseError>)
    ensures
        r is Ok <==> spec_accepts(dialect@, sql@),
        r is Ok ==> r->Ok_0 == true,
        r is Err ==> (r->Err_0).message@ == engine_error_text(dialect_key(dialect@), sql@),
        r is Err ==> (r->Err_0).message@.len() > 0,
        r is Err ==> (r->Err_0).line is None && (r->Err_0).column is None,
{
    match check_syntax(dialect, sql) {
        Ok(_) => Ok(true),
        Err(e) => Err(e.to_wire()),
    }
}

/// The fixed, ordered list of the thirteen supported dialect names.
pub fn get_supported_dialects() -> (r: Vec<String>)
    ensures
        r@.map_values(|t: String| t@) == supported_names(),
{
    let mut v: Vec<String> = Vec::new();
    v.push(String::from_str("generic"));
    v.push(String::from_str("ansi"));
    v.push(String::from_str("mysql"));
    v.push(String::from_str("postgresql"));
    v.push(String::from_str("sqlite"));
    v.push(String::from_str("snowflake"));
    v.push(String::from_str("redshift"));
    v.push(String::from_str("mssql"));
    v.push(String::from_str("clickhouse"));
    v.push(String::from_str("bigquery"));
    v.push(String::from_str("duckdb"));
    v.push(String::from_str("databricks"));
    v.push(String::from_str("hive"));
    proof {
        assert(v@.map_values(|t: String| t@) =~= supported_names());
    }
    v
}

/// Law: validation succeeds exactly when the structured parse succeeds, on
/// every input whose parsed result the structured projection serializes;
/// the structured parse can additionally fail, as a serialization failure,
/// only where that projection fails.
pub proof fn lemma_validate_iff_parse(dialect: Seq<char>, sql: Seq<char>)
    ensures
        spec_parse_ok(dialect, sql, Option::None) ==> spec_accepts(dialect, sql),
        engine_value_ok(dialect_key(dialect), sql) ==> (spec_accepts(dialect, sql)
            <==> spec_parse_ok(dialect, sql, Option::None)),
{
}

} // verus!
