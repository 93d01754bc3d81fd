//! Error normalization: every failing stage of the pipeline produces a
//! strongly typed error inside the library, and the facade flattens it into
//! the one shared wire shape.

use vstd::prelude::*;
use vstd::string::StringExecFns;

verus! {

/// Which stage failed.  The facade boundary flattens all kinds into one
/// shape, but the kind is kept distinct inside the library.
#[derive(Clone, Copy, Debug, PartialEq, Eq, Structural)]
pub enum ErrorKind {
    /// The engine reported its tokenizer-error variant: ordinarily,
    /// tokenization could not produce a complete token stream.
    Lexical,
    /// The token stream does not match any valid statement grammar for the
    /// chosen dialect; exceeding the recursion limit is reported here too.
    Syntax,
    /// A successfully parsed result could not be converted to its
    /// serialized projection.
    Serialization,
}

/// A strongly typed pipeline error: the failing stage and its diagnostic.
#[derive(Debug)]
pub struct SqlError {
    pub kind: ErrorKind,
    pub message: String,
}

/// The single error shape every failure is translated into at the facade
/// boundary.  The location fields are part of the shape but are not yet
/// populated by the lexical and syntactic paths.
#[derive(Debug)]
pub struct ParseError {
    pub message: String,
    pub line: Option<u64>,
    pub column: Option<u64>,
}

impl SqlError {
    /// Flattens the typed error into the wire shape, keeping the message.
    pub fn to_wire(&self) -> (r: ParseError)
        ensures
            r.message@ == self.message@,
            r.line is None,
            r.column is None,
    {
        ParseError { message: self.message.clone(), line: None, column: None }
    }
}

/// The typed error for a failing engine run: a lexical failure keeps its
/// kind, every other failure is a grammar failure.
pub fn engine_failure(is_lexical: bool, message: String) -> (r: SqlError)
    ensures
        r.kind == (if is_lexical {
            ErrorKind::Lexical
        } else {
            ErrorKind::Syntax
        }),
        r.message@ == message@,
{
    let kind = if is_lexical {
        ErrorKind::Lexical
    } else {
        ErrorKind::Syntax
    };
    SqlError { kind, message }
}

/// The typed error for a parsed result whose serialized projection failed,
/// with the facade's wording in front of the underlying diagnostic.
pub fn serialization_failure(detail: String) -> (r: SqlError)
    ensures
        r.kind == ErrorKind::Serialization,
        r.message@ == "Serialization error: "@ + detail@,
{
    let message = String::from_str("Serialization error: ").concat(detail.as_str());
    SqlError { kind: ErrorKind::Serialization, message }
}

} // verus!
