//! The verified pipeline: each operation resolves the dialect, runs the
//! engine once, and projects or discards the result, producing a strongly
//! typed error when a stage fails.

use vstd::prelude::*;
use vstd::string::StringExecFns;

use crate::dialect::{canonical_name, canonical_seq, get_dialect, is_canonical_dialect,
    resolve_spec};
use crate::engine::{engine_accepts, engine_accepts_within, engine_error_is_lexical,
    engine_error_is_lexical_within, engine_error_text, engine_error_text_within,
    engine_pretty_error_text, engine_pretty_ok, engine_pretty_text, engine_texts,
    engine_value_error_text, engine_value_error_text_within, engine_value_ok,
    engine_value_ok_within, run_check, run_parse_pretty, run_parse_texts, run_parse_value,
    run_parse_value_limited};
use crate::error::{engine_failure, serialization_failure, ErrorKind, SqlError};
use crate::options::{spec_limit_of, ParserOptions};

verus! {

/// The canonical dialect name a raw name leads the engine to.
pub open spec fn dialect_key(dialect: Seq<char>) -> Seq<char> {
    canonical_seq(resolve_spec(dialect))
}

/// Whether the engine, reached through a raw dialect name, accepts the
/// text under its default recursion depth.
pub open spec fn spec_accepts(dialect: Seq<char>, sql: Seq<char>) -> bool {
    engine_accepts(dialect_key(dialect), sql)
}

/// The kind of a failing engine run reached through a raw dialect name.
pub open spec fn spec_engine_error_kind(dialect: Seq<char>, sql: Seq<char>) -> ErrorKind {
    if engine_error_is_lexical(dialect_key(dialect), sql) {
        ErrorKind::Lexical
    } else {
        ErrorKind::Syntax
    }
}

/// The statements' canonical texts joined by `;\n`.
pub open spec fn join_texts(ts: Seq<Seq<char>>) -> Seq<char>
    decreases ts.len(),
{
    if ts.len() == 0 {
        Seq::empty()
    } else if ts.len() == 1 {
        ts[0]
    } else {
        join_texts(ts.drop_last()) + ";\n"@ + ts.last()
    }
}

/// The canonical re-printed text of the whole statement sequence.
pub open spec fn spec_canonical_text(dialect: Seq<char>, sql: Seq<char>) -> Seq<char> {
    join_texts(engine_texts(dialect_key(dialect), sql))
}

/// Whether the text parses and its structured projection succeeds, under
/// the recursion limit the options ask for.
pub open spec fn spec_parse_ok(dialect: Seq<char>, sql: Seq<char>, limit: Option<usize>) -> bool {
    match limit {
        Option::None => spec_accepts(dialect, sql) && engine_value_ok(dialect_key(dialect), sql),
        Option::Some(k) => engine_accepts_within(dialect_key(dialect), sql, k as int)
            && engine_value_ok_within(dialect_key(dialect), sql, k as int),
    }
}

/// The kind of the first failing stage of a structured parse.
pub open spec fn spec_parse_error_kind(
    dialect: Seq<char>,
    sql: Seq<char>,
    limit: Option<usize>,
) -> ErrorKind {
    match limit {
        Option::None => if !spec_accepts(dialect, sql) {
            spec_engine_error_kind(dialect, sql)
        } else {
            ErrorKind::Serialization
        },
        Option::Some(k) => if !engine_accepts_within(dialect_key(dialect), sql, k as int) {
            if engine_error_is_lexical_within(dialect_key(dialect), sql, k as int) {
                ErrorKind::Lexical
            } else {
                ErrorKind::Syntax
            }
        } else {
            ErrorKind::Serialization
        },
    }
}

/// The message of the first failing stage of a structured parse.
pub open spec fn spec_parse_error_message(
    dialect: Seq<char>,
    sql: Seq<char>,
    limit: Option<usize>,
) -> Seq<char> {
    match limit {
        Option::None => if !spec_accepts(dialect, sql) {
            engine_error_text(dialect_key(dialect), sql)
        } else {
            "Serialization error: "@ + engine_value_error_text(dialect_key(dialect), sql)
        },
        Option::Some(k) => if !engine_accepts_within(dialect_key(dialect), sql, k as int) {
            engine_error_text_within(dialect_key(dialect), sql, k as int)
        } else {
            "Serialization error: "@ + engine_value_error_text_within(
                dialect_key(dialect),
                sql,
                k as int,
            )
        },
    }
}

/// Whether the text parses and pretty-prints as serialized text.
pub open spec fn spec_pretty_ok(dialect: Seq<char>, sql: Seq<char>) -> bool {
    spec_accepts(dialect, sql) && engine_pretty_ok(dialect_key(dialect), sql)
}

/// The kind of the first failing stage of the serialized-text projection.
pub open spec fn spec_pretty_error_kind(dialect: Seq<char>, sql: Seq<char>) -> ErrorKind {
    if !spec_accepts(dialect, sql) {
        spec_engine_error_kind(dialect, sql)
    } else {
        ErrorKind::Serialization
    }
}

/// The message of the first failing stage of the serialized-text
/// projection.
pub open spec fn spec_pretty_error_message(dialect: Seq<char>, sql: Seq<char>) -> Seq<char> {
    if !spec_accepts(dialect, sql) {
        engine_error_text(dialect_key(dialect), sql)
    } else {
        "Serialization error: "@ + engine_pretty_error_text(dialect_key(dialect), sql)
    }
}

proof fn lemma_join_take_step(m: Seq<Seq<char>>, i: int)
    requires
        0 <= i < m.len(),
    ensures
        join_texts(m.take(i + 1)) == if i == 0 {
            m[0]
        } else {
            join_texts(m.take(i)) + ";\n"@ + m[i]
        },
{
    let t = m.take(i + 1);
    if i == 0 {
        assert(t[0] == m[0]);
    } else {
        assert(t.drop_last() =~= m.take(i));
        assert(t.last() == m[i]);
    }
}

/// Joins the statements' canonical texts with `;\n`, in order.
pub fn join_statement_texts(texts: &Vec<String>) -> (r: String)
    ensures
        r@ == join_texts(texts@.map_values(|t: String| t@)),
{
    let ghost m = texts@.map_values(|t: String| t@);
    let mut out = String::new();
    let mut i: usize = 0;
    while i < texts.len()
        invariant
            i <= texts@.len(),
            m == texts@.map_values(|t: String| t@),
            m.len() == texts@.len(),
            out@ == join_texts(m.take(i as int)),
        decreases texts@.len() - i,
    {
        if i > 0 {
            out.append(";\n");
        }
        out.append(texts[i].as_str());
        proof {
            lemma_join_take_step(m, i as int);
            if i == 0 {
                assert(out@ =~= join_texts(m.take(i + 1)));
            } else {
                assert(out@ =~= join_texts(m.take(i + 1)));
            }
        }
        i += 1;
    }
    proof {
        assert(m.take(texts@.len() as int) =~= m);
    }
    out
}

/// Resolves a dialect and hands back the canonical name the engine is
/// keyed by.
fn resolved_key(dialect: &str) -> (r: &'static str)
    ensures
        r@ == dialect_key(dialect@),
        is_canonical_dialect(r@),
{
    let d = get_dialect(dialect);
    let name = canonical_name(d);
    proof {
        assert(canonical_seq(d) == name@);
    }
    name
}

/// Runs the full tokenize-and-parse pipeline and discards the statement
/// sequence: succeeds exactly when the text parses under the dialect.
pub fn check_syntax(dialect: &str, sql: &str) -> (r: Result<(), SqlError>)
    ensures
        r is Ok <==> spec_accepts(dialect@, sql@),
        r is Err ==> (r->Err_0).kind == spec_engine_error_kind(dialect@, sql@),
        r is Err ==> (r->Err_0).message@ == engine_error_text(dialect_key(dialect@), sql@),
        r is Err ==> (r->Err_0).message@.len() > 0,
{
    let name = resolved_key(dialect);
    match run_check(name, sql) {
        Ok(u) => Ok(u),
        Err((is_lexical, message)) => Err(engine_failure(is_lexical, message)),
    }
}

/// Parses the text and re-prints each statement in its canonical form,
/// statements joined by `;\n`.
pub fn parse_to_canonical(dialect: &str, sql: &str) -> (r: Result<String, SqlError>)
    ensures
        r is Ok <==> spec_accepts(dialect@, sql@),
        r is Ok ==> (r->Ok_0)@ == spec_canonical_text(dialect@, sql@),
        r is Err ==> (r->Err_0).kind == spec_engine_error_kind(dialect@, sql@),
        r is Err ==> (r->Err_0).message@ == engine_error_text(dialect_key(dialect@), sql@),
        r is Err ==> (r->Err_0).message@.len() > 0,
{
    let name = resolved_key(dialect);
    match run_parse_texts(name, sql) {
        Ok(texts) => Ok(join_statement_texts(&texts)),
        Err((is_lexical, message)) => Err(engine_failure(is_lexical, message)),
    }
}

/// Parses the text into its structured projection, under the recursion
/// limit the options ask for.
pub fn parse_to_value(dialect: &str, sql: &str, options: Option<ParserOptions>) -> (r: Result<
    serde_json::Value,
    SqlError,
>)
    ensures
        r is Ok <==> spec_parse_ok(dialect@, sql@, spec_limit_of(options)),
        r is Err ==> (r->Err_0).kind == spec_parse_error_kind(
            dialect@,
            sql@,
            spec_limit_of(options),
        ),
        r is Err ==> (r->Err_0).message@ == spec_parse_error_message(
            dialect@,
            sql@,
            spec_limit_of(options),
        ),
        r is Err ==> (r->Err_0).message@.len() > 0,
{
    proof {
        reveal_strlit("Serialization error: ");
    }
    let name = resolved_key(dialect);
    let limit = match options {
        Option::None => Option::None,
        Option::Some(o) => o.recursion_limit,
    };
    match limit {
        Option::None => match run_parse_value(name, sql) {
            Ok(Ok(v)) => Ok(v),
            Ok(Err(detail)) => Err(serialization_failure(detail)),
            Err((is_lexical, message)) => Err(engine_failure(is_lexical, message)),
        },
        Option::Some(k) => match run_parse_value_limited(name, sql, k) {
            Ok(Ok(v)) => Ok(v),
            Ok(Err(detail)) => Err(serialization_failure(detail)),
            Err((is_lexical, message)) => Err(engine_failure(is_lexical, message)),
        },
    }
}

/// Parses the text and renders the statement sequence as pretty-printed
/// serialized text.
pub fn parse_to_pretty(dialect: &str, sql: &str) -> (r: Result<String, SqlError>)
    ensures
        r is Ok <==> spec_pretty_ok(dialect@, sql@),
        r is Ok ==> (r->Ok_0)@ == engine_pretty_text(dialect_key(dialect@), sql@),
        r is Err ==> (r->Err_0).kind == spec_pretty_error_kind(dialect@, sql@),
        r is Err ==> (r->Err_0).message@ == spec_pretty_error_message(dialect@, sql@),
        r is Err ==> (r->Err_0).message@.len() > 0,
{
    proof {
        reveal_strlit("Serialization error: ");
    }
    let name = resolved_key(dialect);
    match run_parse_pretty(name, sql) {
        Ok(Ok(text)) => Ok(text),
        Ok(Err(detail)) => Err(serialization_failure(detail)),
        Err((is_lexical, message)) => Err(engine_failure(is_lexical, message)),
    }
}

} // verus!
