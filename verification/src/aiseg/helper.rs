//! Reading text and numbers out of AiSEG2 pages.
use crate::aiseg::html::{
    element_first_text, element_has_children, element_text, is_numeric, parse_selector,
    select_in_document, spec_first_text, spec_has_children, spec_is_numeric, spec_match_count,
    spec_selector_error, spec_selector_parses, spec_text, CssSelector, HtmlDocument,
};
use crate::text::{chars_of, concat2};
use vstd::prelude::*;

verus! {

/// A text result taken by its characters.
pub open spec fn text_result(r: Result<String, String>) -> Result<Seq<char>, Seq<char>> {
    match r {
        Ok(s) => Ok(s@),
        Err(e) => Err(e@),
    }
}

/// The message given when a selector does not parse.
pub open spec fn selector_failure(selector: Seq<char>) -> Seq<char> {
    "Failed to parse selector: "@ + spec_selector_error(selector)
}

/// The path of the first element of the document that matches `selector`.
pub open spec fn first_match(selector: Seq<char>) -> Seq<(Seq<char>, nat)> {
    seq![(selector, 0nat)]
}

/// What reading the text of the first element matching `selector` gives: its whole text, or
/// why there is none.
pub open spec fn text_from_html(html: Seq<char>, selector: Seq<char>) -> Result<Seq<char>, Seq<char>> {
    if !spec_selector_parses(selector) {
        Err(selector_failure(selector))
    } else if spec_match_count(html, Seq::empty(), selector) == 0 {
        Err("Failed to find value"@)
    } else if !spec_has_children(html, first_match(selector)) {
        Err("Element has no children"@)
    } else {
        Ok(spec_text(html, first_match(selector)))
    }
}

/// Whether a character is kept when a number is read out of a text: a numeric character or a dot.
pub open spec fn kept_in_number(c: char) -> bool {
    spec_is_numeric(c) || c == '.'
}

/// The characters of `text` that are kept when a number is read out of it, in order.
pub open spec fn number_chars(text: Seq<char>) -> Seq<char>
    decreases text.len(),
{
    if text.len() == 0 {
        text
    } else {
        let rest = number_chars(text.drop_last());
        if kept_in_number(text.last()) {
            rest.push(text.last())
        } else {
            rest
        }
    }
}

/// An ASCII decimal digit.
pub open spec fn is_ascii_digit(c: char) -> bool {
    '0' <= c && c <= '9'
}

/// Whether a text made of digits and dots is a decimal literal that `f64::from_str` accepts:
/// ASCII digits with at most one dot, and at least one digit.
pub open spec fn is_float_literal(text: Seq<char>) -> bool {
    &&& forall|i: int| 0 <= i < text.len() ==> is_ascii_digit(#[trigger] text[i]) || text[i] == '.'
    &&& forall|i: int, j: int| 0 <= i < j < text.len() ==> !(#[trigger] text[i] == '.' && #[trigger] text[j] == '.')
    &&& exists|i: int| 0 <= i < text.len() && is_ascii_digit(#[trigger] text[i])
}

/// What reading a decimal number from the first element matching `selector` gives: the
/// numeric characters of its first text node, when they form a decimal literal, or why not.
pub open spec fn decimal_from_html(html: Seq<char>, selector: Seq<char>) -> Result<Seq<char>, Seq<char>> {
    if !spec_selector_parses(selector) {
        Err(selector_failure(selector))
    } else if spec_match_count(html, Seq::empty(), selector) == 0 {
        Err("Failed to find value"@)
    } else {
        match spec_first_text(html, first_match(selector)) {
            None => Err("Failed to get text"@),
            Some(t) => if is_float_literal(number_chars(t)) {
                Ok(number_chars(t))
            } else {
                Err("Failed to parse value"@)
            },
        }
    }
}

/// Parses a CSS selector; on failure, says so with the parser's message.
pub fn html_selector(selector: &str) -> (r: Result<CssSelector, String>)
    ensures
        r is Ok <==> spec_selector_parses(selector@),
        r matches Ok(s) ==> s@ == selector@,
        r matches Err(m) ==> m@ == selector_failure(selector@),
{
    match parse_selector(selector) {
        Ok(s) => Ok(s),
        Err(e) => Err(concat2("Failed to parse selector: ", e.as_str())),
    }
}

/// The whole text of the first element matching `selector`.
///
/// Fails when the selector does not parse, when nothing matches, or when the element has no
/// children.
pub fn parse_text_from_html(document: &HtmlDocument, selector: &str) -> (r: Result<String, String>)
    ensures
        text_result(r) == text_from_html(document@, selector@),
{
    let compiled = match html_selector(selector) {
        Ok(s) => s,
        Err(e) => return Err(e),
    };
    let matches = select_in_document(document, &compiled);
    if matches.len() == 0 {
        return Err(String::from_str("Failed to find value"));
    }
    let element = &matches[0];
    if !element_has_children(element) {
        return Err(String::from_str("Element has no children"));
    }
    Ok(element_text(element))
}

/// The characters of `text` that are numeric or dots, in order.
pub fn number_chars_of(text: &str) -> (r: String)
    ensures
        r@ == number_chars(text@),
{
    let chars = chars_of(text);
    let mut out = String::new();
    let mut i: usize = 0;
    while i < chars.len()
        invariant
            chars@ == text@,
            i <= chars@.len(),
            out@ == number_chars(text@.take(i as int)),
        decreases chars@.len() - i,
    {
        let c = chars[i];
        proof {
            assert(text@.take(i + 1).drop_last() =~= text@.take(i as int));
        }
        if is_numeric(c) || c == '.' {
            let mut one = String::new();
            push_one(&mut one, c);
            out.append(one.as_str());
        }
        i += 1;
    }
    proof {
        assert(text@.take(chars@.len() as int) =~= text@);
    }
    out
}

/// Puts `c` into the empty string `s`.
fn push_one(s: &mut String, c: char)
    requires
        old(s)@.len() == 0,
    ensures
        final(s)@ == seq![c],
{
    crate::text::push_char(s, c);
    proof {
        assert(Seq::<char>::empty().push(c) =~= seq![c]);
    }
}

/// Whether `text` is a decimal literal: ASCII digits with at most one dot, and a digit.
pub fn is_decimal_literal(text: &str) -> (r: bool)
    ensures
        r == is_float_literal(text@),
{
    let chars = chars_of(text);
    let mut dots: usize = 0;
    let mut digits = false;
    let mut i: usize = 0;
    while i < chars.len()
        invariant
            chars@ == text@,
            i <= chars@.len(),
            dots <= 1,
            forall|k: int| 0 <= k < i ==> is_ascii_digit(#[trigger] text@[k]) || text@[k] == '.',
            dots == 0 ==> forall|k: int| 0 <= k < i ==> #[trigger] text@[k] != '.',
            dots == 1 ==> exists|k: int| 0 <= k < i && #[trigger] text@[k] == '.',
            forall|k: int, l: int| 0 <= k < l < i ==> !(#[trigger] text@[k] == '.' && #[trigger] text@[l] == '.'),
            digits <==> exists|k: int| 0 <= k < i && is_ascii_digit(#[trigger] text@[k]),
        decreases chars@.len() - i,
    {
        let c = chars[i];
        if c == '.' {
            if dots == 1 {
                proof {
                    let k = choose|k: int| 0 <= k < i && #[trigger] text@[k] == '.';
                    assert(text@[k] == '.' && text@[i as int] == '.');
                }
                return false;
            }
            dots = 1;
        } else if '0' <= c && c <= '9' {
            digits = true;
        } else {
            return false;
        }
        i += 1;
    }
    digits
}

/// The decimal number in the first text node of the first element matching `selector`, as the
/// text of its numeric characters and dots.
///
/// Fails when the selector does not parse, when nothing matches, when the element has no text,
/// or when what is kept is not a decimal literal.
pub fn parse_decimal_text_from_html(document: &HtmlDocument, selector: &str) -> (r: Result<String, String>)
    ensures
        text_result(r) == decimal_from_html(document@, selector@),
{
    let compiled = match html_selector(selector) {
        Ok(s) => s,
        Err(e) => return Err(e),
    };
    let matches = select_in_document(document, &compiled);
    if matches.len() == 0 {
        return Err(String::from_str("Failed to find value"));
    }
    let text = match element_first_text(&matches[0]) {
        Some(t) => t,
        None => return Err(String::from_str("Failed to get text")),
    };
    let kept = number_chars_of(text.as_str());
    if is_decimal_literal(kept.as_str()) {
        Ok(kept)
    } else {
        Err(String::from_str("Failed to parse value"))
    }
}

} // verus!
