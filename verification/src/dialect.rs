//! The dialect registry: maps a case-insensitive name to one of a fixed,
//! closed set of grammar-rule variants, with the generic variant as the
//! fallback for any unrecognized name.

use vstd::prelude::*;
use vstd::string::StrSliceExecFns;

verus! {

/// One of the fixed set of supported SQL dialects.
#[derive(Clone, Copy, Debug, PartialEq, Eq, Structural)]
pub enum Dialect {
    Generic,
    Ansi,
    MySql,
    PostgreSql,
    Sqlite,
    Snowflake,
    Redshift,
    MsSql,
    ClickHouse,
    BigQuery,
    DuckDb,
    Databricks,
    Hive,
}

/// Lowercasing of a single character, as far as name matching can see it:
/// ASCII `'A'..='Z'` map to `'a'..='z'`, and U+212A (the Kelvin sign) maps
/// to `'k'` — the one character whose Unicode lowercase is an ASCII letter —
/// so that matching lowercased names agrees with Unicode lowercasing on
/// every input.  All other characters are left unchanged.
pub open spec fn lower_char(c: char) -> char {
    match c {
        'A' => 'a',
        'B' => 'b',
        'C' => 'c',
        'D' => 'd',
        'E' => 'e',
        'F' => 'f',
        'G' => 'g',
        'H' => 'h',
        'I' => 'i',
        'J' => 'j',
        'K' => 'k',
        'L' => 'l',
        'M' => 'm',
        'N' => 'n',
        'O' => 'o',
        'P' => 'p',
        'Q' => 'q',
        'R' => 'r',
        'S' => 's',
        'T' => 't',
        'U' => 'u',
        'V' => 'v',
        'W' => 'w',
        'X' => 'x',
        'Y' => 'y',
        'Z' => 'z',
        '\u{212A}' => 'k',
        _ => c,
    }
}

/// Lowercasing of a whole character sequence, per `lower_char`.
pub open spec fn lower_seq(s: Seq<char>) -> Seq<char> {
    s.map_values(|c: char| lower_char(c))
}

/// The dialect a name resolves to: the name is lowercased, the recognized
/// names and aliases map to their variants, and everything else falls back
/// to the generic dialect.
pub open spec fn resolve_spec(name: Seq<char>) -> Dialect {
    let l = lower_seq(name);
    if l == "generic"@ {
        Dialect::Generic
    } else if l == "ansi"@ {
        Dialect::Ansi
    } else if l == "mysql"@ {
        Dialect::MySql
    } else if l == "postgresql"@ || l == "postgres"@ {
        Dialect::PostgreSql
    } else if l == "sqlite"@ {
        Dialect::Sqlite
    } else if l == "snowflake"@ {
        Dialect::Snowflake
    } else if l == "redshift"@ {
        Dialect::Redshift
    } else if l == "mssql"@ || l == "sqlserver"@ {
        Dialect::MsSql
    } else if l == "clickhouse"@ {
        Dialect::ClickHouse
    } else if l == "bigquery"@ {
        Dialect::BigQuery
    } else if l == "duckdb"@ {
        Dialect::DuckDb
    } else if l == "databricks"@ {
        Dialect::Databricks
    } else if l == "hive"@ {
        Dialect::Hive
    } else {
        Dialect::Generic
    }
}

/// Whether a lowercased name is one of the recognized names or aliases.
pub open spec fn is_recognized(l: Seq<char>) -> bool {
    ||| l == "generic"@
    ||| l == "ansi"@
    ||| l == "mysql"@
    ||| l == "postgresql"@
    ||| l == "postgres"@
    ||| l == "sqlite"@
    ||| l == "snowflake"@
    ||| l == "redshift"@
    ||| l == "mssql"@
    ||| l == "sqlserver"@
    ||| l == "clickhouse"@
    ||| l == "bigquery"@
    ||| l == "duckdb"@
    ||| l == "databricks"@
    ||| l == "hive"@
}

/// The canonical (lowercase) name of a dialect.
pub open spec fn canonical_seq(d: Dialect) -> Seq<char> {
    match d {
        Dialect::Generic => "generic"@,
        Dialect::Ansi => "ansi"@,
        Dialect::MySql => "mysql"@,
        Dialect::PostgreSql => "postgresql"@,
        Dialect::Sqlite => "sqlite"@,
        Dialect::Snowflake => "snowflake"@,
        Dialect::Redshift => "redshift"@,
        Dialect::MsSql => "mssql"@,
        Dialect::ClickHouse => "clickhouse"@,
        Dialect::BigQuery => "bigquery"@,
        Dialect::DuckDb => "duckdb"@,
        Dialect::Databricks => "databricks"@,
        Dialect::Hive => "hive"@,
    }
}

/// Whether a name is one of the thirteen canonical dialect names.
pub open spec fn is_canonical_dialect(n: Seq<char>) -> bool {
    exists|d: Dialect| canonical_seq(d) == n
}

/// The declared, ordered list of the thirteen supported dialect names.
pub open spec fn supported_names() -> Seq<Seq<char>> {
    seq![
        "generic"@,
        "ansi"@,
        "mysql"@,
        "postgresql"@,
        "sqlite"@,
        "snowflake"@,
        "redshift"@,
        "mssql"@,
        "clickhouse"@,
        "bigquery"@,
        "duckdb"@,
        "databricks"@,
        "hive"@,
    ]
}

fn lower_char_exec(c: char) -> (r: char)
    ensures
        r == lower_char(c),
{
    match c {
        'A' => 'a',
        'B' => 'b',
        'C' => 'c',
        'D' => 'd',
        'E' => 'e',
        'F' => 'f',
        'G' => 'g',
        'H' => 'h',
        'I' => 'i',
        'J' => 'j',
        'K' => 'k',
        'L' => 'l',
        'M' => 'm',
        'N' => 'n',
        'O' => 'o',
        'P' => 'p',
        'Q' => 'q',
        'R' => 'r',
        'S' => 's',
        'T' => 't',
        'U' => 'u',
        'V' => 'v',
        'W' => 'w',
        'X' => 'x',
        'Y' => 'y',
        'Z' => 'z',
        '\u{212A}' => 'k',
        _ => c,
    }
}

/// Whether `name`, lowercased, equals the (already lowercase) `target`.
fn eq_lowercased(name: &str, target: &str) -> (r: bool)
    ensures
        r <==> lower_seq(name@) == target@,
{
    let n = name.unicode_len();
    let t = target.unicode_len();
    if n != t {
        proof {
            assert(lower_seq(name@).len() == name@.len());
        }
        return false;
    }
    let mut i: usize = 0;
    while i < n
        invariant
            i <= n,
            n == name@.len(),
            n == target@.len(),
            forall|j: int| 0 <= j < i ==> lower_seq(name@)[j] == target@[j],
        decreases n - i,
    {
        let c = lower_char_exec(name.get_char(i));
        if c != target.get_char(i) {
            proof {
                assert(lower_seq(name@)[i as int] != target@[i as int]);
            }
            return false;
        }
        i += 1;
    }
    proof {
        assert(lower_seq(name@) =~= target@);
    }
    true
}

/// Resolves a dialect name, case-insensitively, to its variant.  Recognized
/// aliases map to one canonical variant, and any unrecognized name silently
/// resolves to the generic dialect; resolution never fails.
pub fn get_dialect(dialect_name: &str) -> (r: Dialect)
    ensures
        r == resolve_spec(dialect_name@),
{
    if eq_lowercased(dialect_name, "generic") {
        Dialect::Generic
    } else if eq_lowercased(dialect_name, "ansi") {
        Dialect::Ansi
    } else if eq_lowercased(dialect_name, "mysql") {
        Dialect::MySql
    } else if eq_lowercased(dialect_name, "postgresql") || eq_lowercased(dialect_name, "postgres") {
        Dialect::PostgreSql
    } else if eq_lowercased(dialect_name, "sqlite") {
        Dialect::Sqlite
    } else if eq_lowercased(dialect_name, "snowflake") {
        Dialect::Snowflake
    } else if eq_lowercased(dialect_name, "redshift") {
        Dialect::Redshift
    } else if eq_lowercased(dialect_name, "mssql") || eq_lowercased(dialect_name, "sqlserver") {
        Dialect::MsSql
    } else if eq_lowercased(dialect_name, "clickhouse") {
        Dialect::ClickHouse
    } else if eq_lowercased(dialect_name, "bigquery") {
        Dialect::BigQuery
    } else if eq_lowercased(dialect_name, "duckdb") {
        Dialect::DuckDb
    } else if eq_lowercased(dialect_name, "databricks") {
        Dialect::Databricks
    } else if eq_lowercased(dialect_name, "hive") {
        Dialect::Hive
    } else {
        Dialect::Generic
    }
}

/// The canonical name of a dialect, the one the engine is keyed by.
pub fn canonical_name(d: Dialect) -> (r: &'static str)
    ensures
        r@ == canonical_seq(d),
{
    match d {
        Dialect::Generic => "generic",
        Dialect::Ansi => "ansi",
        Dialect::MySql => "mysql",
        Dialect::PostgreSql => "postgresql",
        Dialect::Sqlite => "sqlite",
        Dialect::Snowflake => "snowflake",
        Dialect::Redshift => "redshift",
        Dialect::MsSql => "mssql",
        Dialect::ClickHouse => "clickhouse",
        Dialect::BigQuery => "bigquery",
        Dialect::DuckDb => "duckdb",
        Dialect::Databricks => "databricks",
        Dialect::Hive => "hive",
    }
}

/// Law: each of the thirteen supported names resolves, without failure, to
/// the dialect it names, and that dialect's canonical name is the name
/// itself; since resolution is a pure function of the name, it returns the
/// same variant on every call.
pub proof fn lemma_supported_names_resolve()
    ensures
        forall|i: int|
            0 <= i < supported_names().len() ==> canonical_seq(
                #[trigger] resolve_spec(supported_names()[i]),
            ) == supported_names()[i],
{
    reveal_strlit("generic");
    reveal_strlit("ansi");
    reveal_strlit("mysql");
    reveal_strlit("postgresql");
    reveal_strlit("postgres");
    reveal_strlit("sqlite");
    reveal_strlit("snowflake");
    reveal_strlit("redshift");
    reveal_strlit("mssql");
    reveal_strlit("sqlserver");
    reveal_strlit("clickhouse");
    reveal_strlit("bigquery");
    reveal_strlit("duckdb");
    reveal_strlit("databricks");
    reveal_strlit("hive");
    assert(lower_seq("generic"@) =~= "generic"@);
    assert(lower_seq("ansi"@) =~= "ansi"@);
    assert(lower_seq("mysql"@) =~= "mysql"@);
    assert(lower_seq("postgresql"@) =~= "postgresql"@);
    assert(lower_seq("sqlite"@) =~= "sqlite"@);
    assert(lower_seq("snowflake"@) =~= "snowflake"@);
    assert(lower_seq("redshift"@) =~= "redshift"@);
    assert(lower_seq("mssql"@) =~= "mssql"@);
    assert(lower_seq("clickhouse"@) =~= "clickhouse"@);
    assert(lower_seq("bigquery"@) =~= "bigquery"@);
    assert(lower_seq("duckdb"@) =~= "duckdb"@);
    assert(lower_seq("databricks"@) =~= "databricks"@);
    assert(lower_seq("hive"@) =~= "hive"@);
    assert("redshift"@[0] != "postgres"@[0]);
    assert("mssql"@[1] != "mysql"@[1]);
    assert("clickhouse"@[0] != "postgresql"@[0]);
    assert("bigquery"@[0] != "postgres"@[0]);
    assert("bigquery"@[0] != "redshift"@[0]);
    assert("duckdb"@[0] != "sqlite"@[0]);
    assert("databricks"@[0] != "postgresql"@[0]);
    assert("databricks"@[0] != "clickhouse"@[0]);
    assert("hive"@[0] != "ansi"@[0]);
    assert(resolve_spec("generic"@) == Dialect::Generic);
    assert(resolve_spec("ansi"@) == Dialect::Ansi);
    assert(resolve_spec("mysql"@) == Dialect::MySql);
    assert(resolve_spec("postgresql"@) == Dialect::PostgreSql);
    assert(resolve_spec("sqlite"@) == Dialect::Sqlite);
    assert(resolve_spec("snowflake"@) == Dialect::Snowflake);
    assert(resolve_spec("redshift"@) == Dialect::Redshift);
    assert(resolve_spec("mssql"@) == Dialect::MsSql);
    assert(resolve_spec("clickhouse"@) == Dialect::ClickHouse);
    assert(resolve_spec("bigquery"@) == Dialect::BigQuery);
    assert(resolve_spec("duckdb"@) == Dialect::DuckDb);
    assert(resolve_spec("databricks"@) == Dialect::Databricks);
    assert(resolve_spec("hive"@) == Dialect::Hive);
}

/// Law: a name whose lowercased form is not among the recognized names and
/// aliases resolves to the generic dialect; no name ever fails to resolve.
pub proof fn lemma_unrecognized_resolves_generic(name: Seq<char>)
    ensures
        !is_recognized(lower_seq(name)) ==> resolve_spec(name) == Dialect::Generic,
{
}

} // verus!
