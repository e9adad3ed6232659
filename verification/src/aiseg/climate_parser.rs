//! Reading a climate place with typed errors.
use crate::aiseg::helper::first_match;
use crate::aiseg::html::{
    element_first_text, parse_selector, select_in_document, select_in_element, spec_first_text, spec_match_count,
    spec_selector_error, spec_selector_parses, CssSelector, HtmlDocument,
};
use crate::aiseg::climate_metric_collector::scoped_views;
use crate::aiseg::html_parsing::{digit_at, element_views, extract_tenths_from_digit_elements};
use crate::aiseg::parser_adapters::{humidity_selector, scoped_digit, scoped_display, temperature_selector};
use crate::error::ParseError;
use vstd::prelude::*;

verus! {

/// Why reading a place failed, by kind and text.
pub enum PlaceFailure {
    /// Nothing matches the selector
    ElementNotFound(Seq<char>),
    /// The selector does not parse, with the parser's message
    InvalidSelector(Seq<char>, Seq<char>),
    /// The element has no text
    EmptyElement(Seq<char>),
    /// A display whose text is no decimal number
    NumberParse(Seq<char>),
}

/// Whether `e` is the failure `f`.
pub open spec fn is_failure(e: ParseError, f: PlaceFailure) -> bool {
    match f {
        PlaceFailure::ElementNotFound(s) => e matches ParseError::ElementNotFound { selector } && selector@ == s,
        PlaceFailure::InvalidSelector(s, m) => e matches ParseError::InvalidSelector { selector, message }
            && selector@ == s && message@ == m,
        PlaceFailure::EmptyElement(s) => e matches ParseError::EmptyElement { selector } && selector@ == s,
        PlaceFailure::NumberParse(t) => e matches ParseError::NumberParse { text, message } && text@ == t && message@
            == "invalid float literal"@,
    }
}

/// The failure of an unparsable selector.
pub open spec fn bad_selector(s: Seq<char>) -> PlaceFailure {
    PlaceFailure::InvalidSelector(s, spec_selector_error(s))
}

/// What the place under `base_id` gives: its name with its temperature and humidity in tenths,
/// or the first failure, by kind.
pub open spec fn typed_location(html: Seq<char>, base_id: Seq<char>) -> Result<(Seq<char>, int, int), PlaceFailure> {
    let base = first_match(base_id);
    let wrapper = base.push((".num_wrapper"@, 0nat));
    if !spec_selector_parses(base_id) {
        Err(bad_selector(base_id))
    } else if spec_match_count(html, Seq::empty(), base_id) == 0 {
        Err(PlaceFailure::ElementNotFound(base_id))
    } else if !spec_selector_parses(".txt_name"@) {
        Err(bad_selector(".txt_name"@))
    } else if spec_match_count(html, base, ".txt_name"@) == 0 {
        Err(PlaceFailure::ElementNotFound(".txt_name"@))
    } else {
        match spec_first_text(html, base.push((".txt_name"@, 0nat))) {
            None => Err(PlaceFailure::EmptyElement(".txt_name"@)),
            Some(name) => if !spec_selector_parses(".num_wrapper"@) {
                Err(bad_selector(".num_wrapper"@))
            } else if spec_match_count(html, base, ".num_wrapper"@) == 0 {
                Err(PlaceFailure::ElementNotFound(".num_wrapper"@))
            } else if !spec_selector_parses(temperature_selector()) {
                Err(bad_selector(temperature_selector()))
            } else {
                match scoped_display(html, wrapper, temperature_selector()) {
                    Err(t) => Err(PlaceFailure::NumberParse(t)),
                    Ok(temperature) => if !spec_selector_parses(humidity_selector()) {
                        Err(bad_selector(humidity_selector()))
                    } else {
                        match scoped_display(html, wrapper, humidity_selector()) {
                            Err(t) => Err(PlaceFailure::NumberParse(t)),
                            Ok(humidity) => Ok((name, temperature, humidity)),
                        }
                    },
                }
            },
        }
    }
}

/// Parses a selector; an unparsable one is an `InvalidSelector` error.
fn typed_selector(text: &str) -> (r: Result<CssSelector, ParseError>)
    ensures
        r is Ok <==> spec_selector_parses(text@),
        r matches Ok(s) ==> s@ == text@,
        r matches Err(e) ==> is_failure(e, bad_selector(text@)),
{
    match parse_selector(text) {
        Ok(s) => Ok(s),
        Err(m) => Err(ParseError::invalid_selector(text, m.as_str())),
    }
}

/// The display under `selector` within `scope`, in tenths.
fn scoped_tenths(scope: &crate::aiseg::html::HtmlElement, selector: &CssSelector) -> (r: Result<u32, ParseError>)
    ensures
        match scoped_display(scope@.0, scope@.1, selector@) {
            Ok(t) => r == Ok::<u32, ParseError>(t as u32) && t == r->Ok_0,
            Err(text) => r matches Err(e) && is_failure(e, PlaceFailure::NumberParse(text)),
        },
{
    let elements = select_in_element(scope, selector);
    proof {
        let v = element_views(elements@);
        assert(v =~= scoped_views(scope@.0, scope@.1, selector@));
        assert forall|i: int| 0 <= i < 3 implies digit_at(v, i) == scoped_digit(scope@.0, scope@.1, selector@, i) by {
            if i < elements@.len() {
                assert(v[i] == elements@[i]@);
            }
        }
    }
    extract_tenths_from_digit_elements(&elements)
}

/// Reads the place under `base_id`: its name, then its temperature and humidity in tenths.
/// Digit elements without a digit read as `0`.
pub fn parse_climate_location(document: &HtmlDocument, base_id: &str) -> (r: Result<(String, u32, u32), ParseError>)
    ensures
        match typed_location(document@, base_id@) {
            Ok((n, t, h)) => r matches Ok((rn, rt, rh)) && rn@ == n && rt == t && rh == h,
            Err(f) => r matches Err(e) && is_failure(e, f),
        },
{
    let base_selector = match typed_selector(base_id) {
        Ok(s) => s,
        Err(e) => return Err(e),
    };
    let bases = select_in_document(document, &base_selector);
    if bases.len() == 0 {
        return Err(ParseError::element_not_found(base_id));
    }
    let base = &bases[0];
    let name_selector = match typed_selector(".txt_name") {
        Ok(s) => s,
        Err(e) => return Err(e),
    };
    let names = select_in_element(base, &name_selector);
    if names.len() == 0 {
        return Err(ParseError::element_not_found(".txt_name"));
    }
    let name = match element_first_text(&names[0]) {
        Some(n) => n,
        None => return Err(ParseError::EmptyElement { selector: String::from_str(".txt_name") }),
    };
    let wrapper_selector = match typed_selector(".num_wrapper") {
        Ok(s) => s,
        Err(e) => return Err(e),
    };
    let wrappers = select_in_element(base, &wrapper_selector);
    if wrappers.len() == 0 {
        return Err(ParseError::element_not_found(".num_wrapper"));
    }
    let wrapper = &wrappers[0];
    let temperature_sel = match typed_selector("[id^=\"num_ond_\"][class*=\"num no\"]") {
        Ok(s) => s,
        Err(e) => return Err(e),
    };
    let temperature = match scoped_tenths(wrapper, &temperature_sel) {
        Ok(t) => t,
        Err(e) => return Err(e),
    };
    let humidity_sel = match typed_selector("[id^=\"num_shitudo_\"][class*=\"num no\"]") {
        Ok(s) => s,
        Err(e) => return Err(e),
    };
    let humidity = match scoped_tenths(wrapper, &humidity_sel) {
        Ok(h) => h,
        Err(e) => return Err(e),
    };
    Ok((name, temperature, humidity))
}

} // verus!
