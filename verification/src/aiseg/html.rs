//! HTML documents, CSS selectors and elements, through the `scraper` crate.
//!
//! An element is known by its path: the document's source text and the chain of
//! (selector, match index) steps that led to it from the document.
use vstd::prelude::*;

verus! {

#[verifier::external_type_specification]
#[verifier::external_body]
pub struct ExHtml(scraper::Html);

#[verifier::external_type_specification]
#[verifier::external_body]
pub struct ExSelector(scraper::Selector);

#[verifier::external_type_specification]
#[verifier::external_body]
pub struct ExElementRef<'a>(scraper::ElementRef<'a>);

/// Whether scraper's `Selector::parse` accepts the selector text.
pub uninterp spec fn spec_selector_parses(selector: Seq<char>) -> bool;

/// The message of the error scraper's `Selector::parse` returns for the selector text.
pub uninterp spec fn spec_selector_error(selector: Seq<char>) -> Seq<char>;

/// How many elements match `selector` within the element at `scope` (the whole document when
/// `scope` is empty) of the document parsed from `html`, as scraper's `select` yields them.
pub uninterp spec fn spec_match_count(html: Seq<char>, scope: Seq<(Seq<char>, nat)>, selector: Seq<char>) -> nat;

/// Whether the element at `path` has child nodes (scraper's `has_children`).
pub uninterp spec fn spec_has_children(html: Seq<char>, path: Seq<(Seq<char>, nat)>) -> bool;

/// The concatenated text of the descendant text nodes of the element at `path`
/// (scraper's `text().collect()`).
pub uninterp spec fn spec_text(html: Seq<char>, path: Seq<(Seq<char>, nat)>) -> Seq<char>;

/// The first descendant text node of the element at `path`, if any (scraper's `text().next()`).
pub uninterp spec fn spec_first_text(html: Seq<char>, path: Seq<(Seq<char>, nat)>) -> Option<Seq<char>>;

/// The value of attribute `name` of the element at `path`, if present (scraper's `attr`).
pub uninterp spec fn spec_attribute(html: Seq<char>, path: Seq<(Seq<char>, nat)>, name: Seq<char>) -> Option<Seq<char>>;

/// Whether std's `char::is_numeric` holds of `c` (Unicode numeric categories).
pub uninterp spec fn spec_is_numeric(c: char) -> bool;

/// Whether std's `char::is_whitespace` holds of `c` (the Unicode property White_Space).
pub uninterp spec fn spec_is_whitespace(c: char) -> bool;

/// The text without its leading white space.
pub open spec fn without_leading_space(text: Seq<char>) -> Seq<char>
    decreases text.len(),
{
    if text.len() > 0 && spec_is_whitespace(text[0]) {
        without_leading_space(text.drop_first())
    } else {
        text
    }
}

/// The text without its trailing white space.
pub open spec fn without_trailing_space(text: Seq<char>) -> Seq<char>
    decreases text.len(),
{
    if text.len() > 0 && spec_is_whitespace(text.last()) {
        without_trailing_space(text.drop_last())
    } else {
        text
    }
}

/// The text without leading and trailing white space, as std's `str::trim` gives it.
pub open spec fn trimmed(text: Seq<char>) -> Seq<char> {
    without_trailing_space(without_leading_space(text))
}

/// A parsed HTML document with the text it was parsed from.
pub struct HtmlDocument {
    tree: scraper::Html,
    source: String,
}

impl View for HtmlDocument {
    type V = Seq<char>;

    closed spec fn view(&self) -> Seq<char> {
        self.source@
    }
}

/// A parsed CSS selector with its text.
pub struct CssSelector {
    compiled: scraper::Selector,
    text: String,
}

impl View for CssSelector {
    type V = Seq<char>;

    closed spec fn view(&self) -> Seq<char> {
        self.text@
    }
}

/// An element of a parsed document.
pub struct HtmlElement<'a> {
    node: scraper::ElementRef<'a>,
    path: Ghost<(Seq<char>, Seq<(Seq<char>, nat)>)>,
}

impl<'a> View for HtmlElement<'a> {
    type V = (Seq<char>, Seq<(Seq<char>, nat)>);

    /// The document's source text and the path of the element in it.
    closed spec fn view(&self) -> (Seq<char>, Seq<(Seq<char>, nat)>) {
        self.path@
    }
}

/// Parses an HTML document (scraper's `Html::parse_document`).
#[verifier::external_body]
pub(crate) fn parse_document(source: &str) -> (r: HtmlDocument)
    ensures
        r@ == source@,
{
    HtmlDocument { tree: scraper::Html::parse_document(source), source: source.to_string() }
}

/// Parses a CSS selector (scraper's `Selector::parse`); on failure, the error's message.
#[verifier::external_body]
pub(crate) fn parse_selector(text: &str) -> (r: Result<CssSelector, String>)
    ensures
        r is Ok == spec_selector_parses(text@),
        r matches Ok(s) ==> s@ == text@,
        r matches Err(m) ==> m@ == spec_selector_error(text@),
{
    match scraper::Selector::parse(text) {
        Ok(compiled) => Ok(CssSelector { compiled, text: text.to_string() }),
        Err(e) => Err(e.to_string()),
    }
}

/// The elements of the document that match the selector, in document order (scraper's
/// `Html::select`).
#[verifier::external_body]
pub(crate) fn select_in_document<'a>(doc: &'a HtmlDocument, selector: &CssSelector) -> (r: Vec<HtmlElement<'a>>)
    ensures
        r@.len() == spec_match_count(doc@, Seq::empty(), selector@),
        forall|i: int| 0 <= i < r@.len() ==> (#[trigger] r@[i])@ == (doc@, seq![(selector@, i as nat)]),
{
    doc.tree.select(&selector.compiled).enumerate().map(
        |(i, node)| HtmlElement { node, path: Ghost((doc@, seq![(selector@, i as nat)])) },
    ).collect()
}

/// The descendants of the element that match the selector, in document order (scraper's
/// `ElementRef::select`).
#[verifier::external_body]
pub(crate) fn select_in_element<'a>(element: &HtmlElement<'a>, selector: &CssSelector) -> (r: Vec<HtmlElement<'a>>)
    ensures
        r@.len() == spec_match_count(element@.0, element@.1, selector@),
        forall|i: int|
            0 <= i < r@.len() ==> (#[trigger] r@[i])@ == (element@.0, element@.1.push((selector@, i as nat))),
{
    element.node.select(&selector.compiled).enumerate().map(
        |(i, node)| HtmlElement { node, path: Ghost((element@.0, element@.1.push((selector@, i as nat)))) },
    ).collect()
}

/// Whether the element has child nodes (scraper's `has_children`).
#[verifier::external_body]
pub(crate) fn element_has_children(element: &HtmlElement) -> (r: bool)
    ensures
        r == spec_has_children(element@.0, element@.1),
{
    element.node.has_children()
}

/// The concatenated text of the element's descendant text nodes (scraper's `text`).
#[verifier::external_body]
pub(crate) fn element_text(element: &HtmlElement) -> (r: String)
    ensures
        r@ == spec_text(element@.0, element@.1),
{
    element.node.text().collect()
}

/// The element's first descendant text node, if any (scraper's `text`).
#[verifier::external_body]
pub(crate) fn element_first_text(element: &HtmlElement) -> (r: Option<String>)
    ensures
        r matches Some(t) ==> spec_first_text(element@.0, element@.1) == Some(t@),
        r is None ==> spec_first_text(element@.0, element@.1) is None,
{
    element.node.text().next().map(|t| t.to_string())
}

/// The value of an attribute of the element (scraper's `attr`).
#[verifier::external_body]
pub(crate) fn element_attribute(element: &HtmlElement, name: &str) -> (r: Option<String>)
    ensures
        r matches Some(v) ==> spec_attribute(element@.0, element@.1, name@) == Some(v@),
        r is None ==> spec_attribute(element@.0, element@.1, name@) is None,
{
    element.node.attr(name).map(|v| v.to_string())
}

/// Whether `c` is numeric, through std's `char::is_numeric`.
#[verifier::external_body]
pub(crate) fn is_numeric(c: char) -> (r: bool)
    ensures
        r == spec_is_numeric(c),
{
    c.is_numeric()
}

/// The text without leading and trailing white space (white space as `char::is_whitespace`
/// has it), through std's `str::trim`.
#[verifier::external_body]
pub(crate) fn trim(text: &str) -> (r: String)
    ensures
        r@ == trimmed(text@),
        r@.len() > 0 ==> !spec_is_whitespace(r@[0]) && !spec_is_whitespace(r@.last()),
{
    text.trim().to_string()
}

impl HtmlDocument {
    /// Parses an HTML document.
    pub fn parse(source: &str) -> (r: HtmlDocument)
        ensures
            r@ == source@,
    {
        parse_document(source)
    }

    /// The elements of the document that match the selector, in document order.
    pub fn select<'a>(&'a self, selector: &CssSelector) -> (r: Vec<HtmlElement<'a>>)
        ensures
            r@.len() == spec_match_count(self@, Seq::empty(), selector@),
            forall|i: int| 0 <= i < r@.len() ==> (#[trigger] r@[i])@ == (self@, seq![(selector@, i as nat)]),
    {
        select_in_document(self, selector)
    }
}

impl<'a> HtmlElement<'a> {
    /// The descendants of the element that match the selector, in document order.
    pub fn select(&self, selector: &CssSelector) -> (r: Vec<HtmlElement<'a>>)
        ensures
            r@.len() == spec_match_count(self@.0, self@.1, selector@),
            forall|i: int| 0 <= i < r@.len() ==> (#[trigger] r@[i])@ == (self@.0, self@.1.push((selector@, i as nat))),
    {
        select_in_element(self, selector)
    }
}

} // verus!
