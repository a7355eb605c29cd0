//! Error taxonomy for the registry decoder.
//!
//! Every decode step returns success or one of these errors; errors
//! propagate immediately and halt the whole run.  The payload carries
//! the name of the offending attribute, element or text run, so that
//! the caller can locate the problem in the source document.

use vstd::prelude::*;

verus! {

/// One terminal error of a decode run.
#[derive(Debug, PartialEq, Eq)]
pub enum ParseError {
    /// A required attribute was absent; carries the attribute name.
    MissingAttribute(String),
    /// A required child element or text node was absent; carries a description.
    MissingElement(String),
    /// An element or attribute appeared where none was expected; carries its name.
    UnexpectedElement(String),
    /// The same name was defined twice; carries the repeated name.
    UnexpectedRepeat(String),
    /// A forward reference was never declared; carries the referenced name.
    MissingDefinition(String),
    /// The mixed text/element declaration grammar was violated; carries the offending text.
    MalformedGrammar(String),
    /// A numeric field did not parse as a decimal number; carries the text.
    MalformedNumeric(String),
}

/// Ghost image of a `ParseError`, with every context string as a `Seq<char>`.
pub enum ParseErrorV {
    MissingAttribute(Seq<char>),
    MissingElement(Seq<char>),
    UnexpectedElement(Seq<char>),
    UnexpectedRepeat(Seq<char>),
    MissingDefinition(Seq<char>),
    MalformedGrammar(Seq<char>),
    MalformedNumeric(Seq<char>),
}

impl DeepView for ParseError {
    type V = ParseErrorV;

    open spec fn deep_view(&self) -> ParseErrorV {
        match self {
            ParseError::MissingAttribute(s) => ParseErrorV::MissingAttribute(s@),
            ParseError::MissingElement(s) => ParseErrorV::MissingElement(s@),
            ParseError::UnexpectedElement(s) => ParseErrorV::UnexpectedElement(s@),
            ParseError::UnexpectedRepeat(s) => ParseErrorV::UnexpectedRepeat(s@),
            ParseError::MissingDefinition(s) => ParseErrorV::MissingDefinition(s@),
            ParseError::MalformedGrammar(s) => ParseErrorV::MalformedGrammar(s@),
            ParseError::MalformedNumeric(s) => ParseErrorV::MalformedNumeric(s@),
        }
    }
}

/// Deep view of a decode result: `Ok` values and error contexts both
/// drop to their mathematical images.
pub open spec fn res_view<T: DeepView>(r: Result<T, ParseError>) -> Result<T::V, ParseErrorV> {
    match r {
        Ok(v) => Ok(v.deep_view()),
        Err(e) => Err(e.deep_view()),
    }
}

} // verus!
