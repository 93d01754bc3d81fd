//! Parser configuration accepted by the options-taking entry point.

use vstd::prelude::*;

verus! {

/// Parser options that can be configured.
///
/// `recursion_limit` bounds the parser's nested-construct depth: once
/// nesting exceeds the limit the parse fails with a grammar error instead
/// of exhausting the stack.  Unset means the engine's default depth.
///
/// `trailing_commas` is accepted but currently has no effect on parsing
/// outcomes; it is a reserved option.
#[derive(Clone, Copy, Debug)]
pub struct ParserOptions {
    pub trailing_commas: bool,
    pub recursion_limit: Option<usize>,
}

impl Default for ParserOptions {
    /// The defaults: trailing commas off, recursion limit unset.
    fn default() -> (r: Self)
        ensures
            r.trailing_commas == false,
            r.recursion_limit is None,
    {
        ParserOptions { trailing_commas: false, recursion_limit: None }
    }
}

/// The recursion limit an optional options value asks for: absent options
/// mean the defaults, whose limit is unset.
pub open spec fn spec_limit_of(options: Option<ParserOptions>) -> Option<usize> {
    match options {
        Option::None => Option::None,
        Option::Some(o) => o.recursion_limit,
    }
}

} // verus!
