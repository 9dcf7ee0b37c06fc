use vstd::prelude::*;

verus! {

/// A structured parse failure reported for one property/content pair.
///
/// A failure never aborts a whole extraction run: the caller decides per
/// pair whether to go on.
#[derive(Debug)]
pub enum ParseError {
    /// The path segment sequence has no meaning in the current schema node.
    InvalidPropertyTag,
    /// Reserved for root-level named-field validation failures.
    InvalidProperty(String),
    /// The content string could not be coerced to the target scalar type.
    InvalidContent(String),
}

/// The mathematical shape of a [`ParseError`], with string payloads reduced
/// to character sequences.
pub enum ParseErrorSpec {
    InvalidPropertyTag,
    InvalidProperty(Seq<char>),
    InvalidContent(Seq<char>),
}

impl View for ParseError {
    type V = ParseErrorSpec;

    open spec fn view(&self) -> ParseErrorSpec {
        match self {
            ParseError::InvalidPropertyTag => ParseErrorSpec::InvalidPropertyTag,
            ParseError::InvalidProperty(name) => ParseErrorSpec::InvalidProperty(name@),
            ParseError::InvalidContent(content) => ParseErrorSpec::InvalidContent(content@),
        }
    }
}

/// The outcome of one update, with any error reduced to its spec shape.
pub open spec fn result_view(r: Result<(), ParseError>) -> Result<(), ParseErrorSpec> {
    match r {
        Ok(()) => Ok(()),
        Err(e) => Err(e@),
    }
}

} // verus!
