//! The grammar engine, behind a trusted boundary.
//!
//! The tokenizer, the parser and the serializers live in outside crates and
//! are treated as already-correct collaborators.  Each run of the engine is
//! a pure function of the canonical dialect name, the SQL text and, where
//! set, the recursion limit; the spec functions below name those outcomes,
//! and the wrappers' contracts are the only facts the library assumes of
//! the outside code.

use vstd::prelude::*;

use crate::dialect::is_canonical_dialect;
use sqlparser::dialect::{dialect_from_str, GenericDialect};
use sqlparser::parser::{Parser, ParserError};

verus! {

/// `serde_json`'s structured value, carried opaquely through the library.
#[verifier::external_type_specification]
#[verifier::external_body]
pub struct ExValue(serde_json::Value);

/// Whether the engine, under the named dialect and its default recursion
/// depth, accepts the text as a complete statement sequence.
pub uninterp spec fn engine_accepts(dialect: Seq<char>, sql: Seq<char>) -> bool;

/// The display text of the engine's diagnostic when it rejects the text.
pub uninterp spec fn engine_error_text(dialect: Seq<char>, sql: Seq<char>) -> Seq<char>;

/// Whether the engine reports its rejection in its tokenizer-error variant
/// (how it reports lexical failures).
pub uninterp spec fn engine_error_is_lexical(dialect: Seq<char>, sql: Seq<char>) -> bool;

/// The canonical re-printed text of each parsed statement, in order.
pub uninterp spec fn engine_texts(dialect: Seq<char>, sql: Seq<char>) -> Seq<Seq<char>>;

/// Whether the parsed statement sequence converts to a structured value.
pub uninterp spec fn engine_value_ok(dialect: Seq<char>, sql: Seq<char>) -> bool;

/// The diagnostic text when conversion to a structured value fails.
pub uninterp spec fn engine_value_error_text(dialect: Seq<char>, sql: Seq<char>) -> Seq<char>;

/// Whether the parsed statement sequence pretty-prints as serialized text.
pub uninterp spec fn engine_pretty_ok(dialect: Seq<char>, sql: Seq<char>) -> bool;

/// The pretty-printed serialized text of the parsed statement sequence.
pub uninterp spec fn engine_pretty_text(dialect: Seq<char>, sql: Seq<char>) -> Seq<char>;

/// The diagnostic text when pretty-printing fails.
pub uninterp spec fn engine_pretty_error_text(dialect: Seq<char>, sql: Seq<char>) -> Seq<char>;

/// Whether the engine accepts the text when its recursion depth is bounded
/// by the given limit.
pub uninterp spec fn engine_accepts_within(dialect: Seq<char>, sql: Seq<char>, limit: int) -> bool;

/// The display text of the engine's diagnostic under a bounded depth.
pub uninterp spec fn engine_error_text_within(
    dialect: Seq<char>,
    sql: Seq<char>,
    limit: int,
) -> Seq<char>;

/// Whether a rejection under a bounded depth is reported in the engine's
/// tokenizer-error variant.
pub uninterp spec fn engine_error_is_lexical_within(
    dialect: Seq<char>,
    sql: Seq<char>,
    limit: int,
) -> bool;

/// Whether the statements parsed under a bounded depth convert to a
/// structured value.
pub uninterp spec fn engine_value_ok_within(dialect: Seq<char>, sql: Seq<char>, limit: int) -> bool;

/// The diagnostic text when that conversion fails.
pub uninterp spec fn engine_value_error_text_within(
    dialect: Seq<char>,
    sql: Seq<char>,
    limit: int,
) -> Seq<char>;

/// Relies on `sqlparser`: `dialect_from_str` returns the dialect a
/// canonical name names, and `Parser::parse_sql` runs the tokenizer and the
/// parser over the text, an outcome determined by dialect and text alone.
/// A failure's display text is never empty, and the flag handed back with
/// it is whether the engine reported its `TokenizerError` variant.
#[verifier::external_body]
pub(crate) fn run_check(name: &str, sql: &str) -> (r: Result<(), (bool, String)>)
    requires
        is_canonical_dialect(name@),
    ensures
        r is Ok <==> engine_accepts(name@, sql@),
        r is Err ==> (r->Err_0).1@ == engine_error_text(name@, sql@),
        r is Err ==> (r->Err_0).0 == engine_error_is_lexical(name@, sql@),
        r is Err ==> (r->Err_0).1@.len() > 0,
{
    let d = dialect_from_str(name).unwrap_or(Box::new(GenericDialect {}));
    match Parser::parse_sql(d.as_ref(), sql) {
        Ok(_) => Ok(()),
        Err(e) => Err((matches!(e, ParserError::TokenizerError(_)), e.to_string())),
    }
}

/// Relies on `sqlparser` as `run_check` does, and additionally on the
/// `Display` of each parsed statement: its canonical re-printed SQL text,
/// again a function of dialect and text alone.
#[verifier::external_body]
pub(crate) fn run_parse_texts(name: &str, sql: &str) -> (r: Result<Vec<String>, (bool, String)>)
    requires
        is_canonical_dialect(name@),
    ensures
        r is Ok <==> engine_accepts(name@, sql@),
        r is Ok ==> (r->Ok_0)@.map_values(|t: String| t@) == engine_texts(name@, sql@),
        r is Err ==> (r->Err_0).1@ == engine_error_text(name@, sql@),
        r is Err ==> (r->Err_0).0 == engine_error_is_lexical(name@, sql@),
        r is Err ==> (r->Err_0).1@.len() > 0,
{
    let d = dialect_from_str(name).unwrap_or(Box::new(GenericDialect {}));
    match Parser::parse_sql(d.as_ref(), sql) {
        Ok(stmts) => Ok(stmts.iter().map(|s| s.to_string()).collect()),
        Err(e) => Err((matches!(e, ParserError::TokenizerError(_)), e.to_string())),
    }
}

/// Relies on `sqlparser` as `run_check` does, and additionally on
/// `serde_json::to_value` to convert the parsed statement sequence into a
/// structured value.  The outer result is the parse outcome, the inner one
/// the conversion outcome; both are functions of dialect and text alone.
#[verifier::external_body]
pub(crate) fn run_parse_value(name: &str, sql: &str) -> (r: Result<
    Result<serde_json::Value, String>,
    (bool, String),
>)
    requires
        is_canonical_dialect(name@),
    ensures
        r is Ok <==> engine_accepts(name@, sql@),
        r is Ok ==> ((r->Ok_0) is Ok <==> engine_value_ok(name@, sql@)),
        r is Ok ==> ((r->Ok_0) is Err ==> ((r->Ok_0)->Err_0)@ == engine_value_error_text(
            name@,
            sql@,
        )),
        r is Err ==> (r->Err_0).1@ == engine_error_text(name@, sql@),
        r is Err ==> (r->Err_0).0 == engine_error_is_lexical(name@, sql@),
        r is Err ==> (r->Err_0).1@.len() > 0,
{
    let d = dialect_from_str(name).unwrap_or(Box::new(GenericDialect {}));
    match Parser::parse_sql(d.as_ref(), sql) {
        Ok(stmts) => match serde_json::to_value(&stmts) {
            Ok(v) => Ok(Ok(v)),
            Err(e) => Ok(Err(e.to_string())),
        },
        Err(e) => Err((matches!(e, ParserError::TokenizerError(_)), e.to_string())),
    }
}

/// Relies on `sqlparser`'s `Parser::new`, `with_recursion_limit`,
/// `try_with_sql` and `parse_statements`: the same tokenize-then-parse run,
/// with the recursion depth bounded by the given limit, so the outcome is a
/// function of dialect, text and limit alone; and on `serde_json::to_value`
/// as `run_parse_value` does.
#[verifier::external_body]
pub(crate) fn run_parse_value_limited(name: &str, sql: &str, limit: usize) -> (r: Result<
    Result<serde_json::Value, String>,
    (bool, String),
>)
    requires
        is_canonical_dialect(name@),
    ensures
        r is Ok <==> engine_accepts_within(name@, sql@, limit as int),
        r is Ok ==> ((r->Ok_0) is Ok <==> engine_value_ok_within(name@, sql@, limit as int)),
        r is Ok ==> ((r->Ok_0) is Err ==> ((r->Ok_0)->Err_0)@ == engine_value_error_text_within(
            name@,
            sql@,
            limit as int,
        )),
        r is Err ==> (r->Err_0).1@ == engine_error_text_within(name@, sql@, limit as int),
        r is Err ==> (r->Err_0).0 == engine_error_is_lexical_within(name@, sql@, limit as int),
        r is Err ==> (r->Err_0).1@.len() > 0,
{
    let d = dialect_from_str(name).unwrap_or(Box::new(GenericDialect {}));
    let parsed = match Parser::new(d.as_ref()).with_recursion_limit(limit).try_with_sql(sql) {
        Ok(mut p) => p.parse_statements(),
        Err(e) => Err(e),
    };
    match parsed {
        Ok(stmts) => match serde_json::to_value(&stmts) {
            Ok(v) => Ok(Ok(v)),
            Err(e) => Ok(Err(e.to_string())),
        },
        Err(e) => Err((matches!(e, ParserError::TokenizerError(_)), e.to_string())),
    }
}

/// Relies on `sqlparser` as `run_check` does, and additionally on
/// `serde_json::to_string_pretty` to render the parsed statement sequence
/// as pretty-printed serialized text, a function of dialect and text alone.
#[verifier::external_body]
pub(crate) fn run_parse_pretty(name: &str, sql: &str) -> (r: Result<
    Result<String, String>,
    (bool, String),
>)
    requires
        is_canonical_dialect(name@),
    ensures
        r is Ok <==> engine_accepts(name@, sql@),
        r is Ok ==> ((r->Ok_0) is Ok <==> engine_pretty_ok(name@, sql@)),
        r is Ok ==> ((r->Ok_0) is Ok ==> ((r->Ok_0)->Ok_0)@ == engine_pretty_text(name@, sql@)),
        r is Ok ==> ((r->Ok_0) is Err ==> ((r->Ok_0)->Err_0)@ == engine_pretty_error_text(
            name@,
            sql@,
        )),
        r is Err ==> (r->Err_0).1@ == engine_error_text(name@, sql@),
        r is Err ==> (r->Err_0).0 == engine_error_is_lexical(name@, sql@),
        r is Err ==> (r->Err_0).1@.len() > 0,
{
    let d = dialect_from_str(name).unwrap_or(Box::new(GenericDialect {}));
    match Parser::parse_sql(d.as_ref(), sql) {
        Ok(stmts) => match serde_json::to_string_pretty(&stmts) {
            Ok(t) => Ok(Ok(t)),
            Err(e) => Ok(Err(e.to_string())),
        },
        Err(e) => Err((matches!(e, ParserError::TokenizerError(_)), e.to_string())),
    }
}

} // verus!
