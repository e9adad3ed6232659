//! Building blocks shared by the page parsers.
use crate::aiseg::html::{HtmlDocument, HtmlElement};
use vstd::prelude::*;

verus! {

/// Parses a page into a value; fails with a message.
pub trait HtmlParser {
    /// What the parser produces.
    type Output;

    /// Parses the page.
    fn parse(&self, document: &HtmlDocument) -> Result<Self::Output, String>;
}

/// Parses a page with information from outside the page, such as a time.
pub trait ContextualHtmlParser {
    /// What the parser produces.
    type Output;
    /// What the parser needs besides the page.
    type Context;

    /// Parses the page with its context.
    fn parse_with_context(&self, document: &HtmlDocument, context: Self::Context) -> Result<Self::Output, String>;
}

/// Parses one element of a page.
pub trait ElementParser {
    /// What the parser extracts.
    type Output;

    /// Parses the element.
    fn parse_element(&self, element: &HtmlElement) -> Result<Self::Output, String>;
}

/// Parses what a page may or may not hold.
pub trait OptionalParser {
    /// What the parser produces.
    type Output;

    /// Parses the page; `None` when the data is not there.
    fn parse_optional(&self, document: &HtmlDocument) -> Option<Self::Output>;
}

/// Builder for creating parsers with common configuration.
pub struct ParserBuilder<P> {
    parser: P,
}

impl<P> ParserBuilder<P> {
    /// The parser being configured.
    pub closed spec fn spec_parser(self) -> P {
        self.parser
    }

    /// Creates a new parser builder.
    pub fn new(parser: P) -> (r: Self)
        ensures
            r.spec_parser() == parser,
    {
        ParserBuilder { parser }
    }

    /// Builds the configured parser.
    pub fn build(self) -> (r: P)
        ensures
            r == self.spec_parser(),
    {
        self.parser
    }
}

/// Error context for a parsing operation.
pub struct ParseContext<'a> {
    operation: &'a str,
    context: Option<&'a str>,
}

/// The message `error_message` builds: `operation: error`, followed by ` (context)` when there is
/// context.
pub open spec fn context_message(operation: Seq<char>, context: Option<Seq<char>>, error: Seq<char>) -> Seq<char> {
    match context {
        Some(ctx) => operation + ": "@ + error + " ("@ + ctx + ")"@,
        None => operation + ": "@ + error,
    }
}

impl<'a> ParseContext<'a> {
    /// The name of the operation.
    pub closed spec fn spec_operation(self) -> Seq<char> {
        self.operation@
    }

    /// The additional context, if any.
    pub closed spec fn spec_context(self) -> Option<Seq<char>> {
        match self.context {
            Some(c) => Some(c@),
            None => None,
        }
    }

    /// Creates a parse context with no additional information.
    pub fn new(operation: &'a str) -> (r: Self)
        ensures
            r.spec_operation() == operation@,
            r.spec_context() is None,
    {
        ParseContext { operation, context: None }
    }

    /// Adds additional context information.
    pub fn with_context(self, context: &'a str) -> (r: Self)
        ensures
            r.spec_operation() == self.spec_operation(),
            r.spec_context() == Some(context@),
    {
        ParseContext { operation: self.operation, context: Some(context) }
    }

    /// Creates an error message with context.
    pub fn error_message(&self, error: &str) -> (r: String)
        ensures
            r@ == context_message(self.spec_operation(), self.spec_context(), error@),
    {
        let mut r = String::from_str(self.operation);
        r.append(": ");
        r.append(error);
        match self.context {
            Some(ctx) => {
                r.append(" (");
                r.append(ctx);
                r.append(")");
            },
            None => {},
        }
        r
    }
}

} // verus!
