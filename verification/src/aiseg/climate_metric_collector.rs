//! The strict reading of a climate place: every digit element must carry a class with a numeric
//! character.
use crate::aiseg::helper::{first_match, html_selector, selector_failure};
use crate::aiseg::html::{
    element_attribute, element_first_text, select_in_document, select_in_element, spec_attribute, spec_first_text,
    spec_match_count, spec_selector_parses, HtmlDocument, HtmlElement,
};
use crate::aiseg::html_parsing::{display_tenths, element_views, first_numeric, first_numeric_char};
use crate::aiseg::parser_adapters::{humidity_selector, temperature_selector};
use vstd::prelude::*;

verus! {

/// The digit an element shows through its class, or why it shows none.
pub open spec fn strict_digit(class: Option<Seq<char>>) -> Result<char, Seq<char>> {
    match class {
        None => Err("Failed to get class"@),
        Some(c) => match first_numeric(c) {
            None => Err("No numeric character found in class"@),
            Some(d) => Ok(d),
        },
    }
}

/// The digit of the `i`th of the elements (`0` past the last one), or why there is none.
pub open spec fn strict_digit_at(elements: Seq<(Seq<char>, Seq<(Seq<char>, nat)>)>, i: int) -> Result<char, Seq<char>> {
    if 0 <= i < elements.len() {
        strict_digit(spec_attribute(elements[i].0, elements[i].1, "class"@))
    } else {
        Ok('0')
    }
}

/// The value of the three-digit display `XX.X` shown by the first three elements, in tenths:
/// the first element without a class or without a numeric character in it fails the reading, and
/// so do digits that form no decimal number.
pub open spec fn strict_display(elements: Seq<(Seq<char>, Seq<(Seq<char>, nat)>)>) -> Result<int, Seq<char>> {
    match strict_digit_at(elements, 0) {
        Err(e) => Err(e),
        Ok(d0) => match strict_digit_at(elements, 1) {
            Err(e) => Err(e),
            Ok(d1) => match strict_digit_at(elements, 2) {
                Err(e) => Err(e),
                Ok(d2) => match display_tenths(d0, d1, d2) {
                    Ok(t) => Ok(t),
                    Err(_) => Err("Failed to parse decimal number"@),
                },
            },
        },
    }
}

/// The digit of the `i`th element, or why there is none.
fn strict_digit_of(elements: &Vec<HtmlElement>, i: usize) -> (r: Result<char, String>)
    ensures
        match strict_digit_at(element_views(elements@), i as int) {
            Ok(d) => r == Ok::<char, String>(d),
            Err(e) => r matches Err(m) && m@ == e,
        },
{
    if i < elements.len() {
        match element_attribute(&elements[i], "class") {
            None => Err(String::from_str("Failed to get class")),
            Some(class) => match first_numeric_char(class.as_str()) {
                None => Err(String::from_str("No numeric character found in class")),
                Some(d) => Ok(d),
            },
        }
    } else {
        Ok('0')
    }
}

/// The value of the three-digit display `XX.X` shown by the classes of the first three elements,
/// in tenths (`0` for a position past the last element).
///
/// Fails with "Failed to get class" or "No numeric character found in class" for the first of the
/// first three elements that has no class or no numeric character in it, and with "Failed to
/// parse decimal number" when a digit is a numeric character other than an ASCII digit.
pub fn extract_num_from_html_class(elements: &Vec<HtmlElement>) -> (r: Result<u32, String>)
    ensures
        match strict_display(element_views(elements@)) {
            Ok(t) => r == Ok::<u32, String>(t as u32) && t == r->Ok_0,
            Err(e) => r matches Err(m) && m@ == e,
        },
{
    let d0 = match strict_digit_of(elements, 0) {
        Ok(d) => d,
        Err(e) => return Err(e),
    };
    let d1 = match strict_digit_of(elements, 1) {
        Ok(d) => d,
        Err(e) => return Err(e),
    };
    let d2 = match strict_digit_of(elements, 2) {
        Ok(d) => d,
        Err(e) => return Err(e),
    };
    if '0' <= d0 && d0 <= '9' && '0' <= d1 && d1 <= '9' && '0' <= d2 && d2 <= '9' {
        Ok(100 * (d0 as u32 - '0' as u32) + 10 * (d1 as u32 - '0' as u32) + (d2 as u32 - '0' as u32))
    } else {
        Err(String::from_str("Failed to parse decimal number"))
    }
}

/// The document and path of the elements matching `selector` within the element at `scope`.
pub open spec fn scoped_views(html: Seq<char>, scope: Seq<(Seq<char>, nat)>, selector: Seq<char>) -> Seq<
    (Seq<char>, Seq<(Seq<char>, nat)>),
> {
    Seq::new(spec_match_count(html, scope, selector), |i: int| (html, scope.push((selector, i as nat))))
}

/// What the place under `base_id` gives when read strictly: its name with its temperature and
/// humidity in tenths, or the message of the first thing missing.
pub open spec fn strict_location(html: Seq<char>, base_id: Seq<char>) -> Result<(Seq<char>, int, int), Seq<char>> {
    let base = first_match(base_id);
    let wrapper = base.push((".num_wrapper"@, 0nat));
    if !spec_selector_parses(base_id) {
        Err(selector_failure(base_id))
    } else if spec_match_count(html, Seq::empty(), base_id) == 0 {
        Err("Failed to find value"@)
    } else if !spec_selector_parses(".txt_name"@) {
        Err(selector_failure(".txt_name"@))
    } else if spec_match_count(html, base, ".txt_name"@) == 0 {
        Err("Failed to find name"@)
    } else {
        match spec_first_text(html, base.push((".txt_name"@, 0nat))) {
            None => Err("Failed to get text"@),
            Some(name) => if !spec_selector_parses(".num_wrapper"@) {
                Err(selector_failure(".num_wrapper"@))
            } else if spec_match_count(html, base, ".num_wrapper"@) == 0 {
                Err("Failed to find num_wrapper"@)
            } else if !spec_selector_parses(temperature_selector()) {
                Err(selector_failure(temperature_selector()))
            } else {
                match strict_display(scoped_views(html, wrapper, temperature_selector())) {
                    Err(e) => Err(e),
                    Ok(temperature) => if !spec_selector_parses(humidity_selector()) {
                        Err(selector_failure(humidity_selector()))
                    } else {
                        match strict_display(scoped_views(html, wrapper, humidity_selector())) {
                            Err(e) => Err(e),
                            Ok(humidity) => Ok((name, temperature, humidity)),
                        }
                    },
                }
            },
        }
    }
}

/// The strict display under `selector` within `scope`, in tenths, or its message.
fn scoped_strict(scope: &HtmlElement, selector: &crate::aiseg::html::CssSelector) -> (r: Result<u32, String>)
    ensures
        match strict_display(scoped_views(scope@.0, scope@.1, selector@)) {
            Ok(t) => r == Ok::<u32, String>(t as u32) && t == r->Ok_0,
            Err(e) => r matches Err(m) && m@ == e,
        },
{
    let elements = select_in_element(scope, selector);
    proof {
        assert(element_views(elements@) =~= scoped_views(scope@.0, scope@.1, selector@));
    }
    extract_num_from_html_class(&elements)
}

/// Reads the place under `base_id` strictly: its name, then its temperature and humidity in tenths.
pub fn parse(document: &HtmlDocument, base_id: &str) -> (r: Result<(String, u32, u32), String>)
    ensures
        match r {
            Ok((n, t, h)) => strict_location(document@, base_id@) == Ok::<(Seq<char>, int, int), Seq<char>>(
                (n@, t as int, h as int),
            ),
            Err(e) => strict_location(document@, base_id@) == Err::<(Seq<char>, int, int), Seq<char>>(e@),
        },
{
    let base_selector = match html_selector(base_id) {
        Ok(s) => s,
        Err(e) => return Err(e),
    };
    let bases = select_in_document(document, &base_selector);
    if bases.len() == 0 {
        return Err(String::from_str("Failed to find value"));
    }
    let base = &bases[0];
    let name_selector = match html_selector(".txt_name") {
        Ok(s) => s,
        Err(e) => return Err(e),
    };
    let names = select_in_element(base, &name_selector);
    if names.len() == 0 {
        return Err(String::from_str("Failed to find name"));
    }
    let name = match element_first_text(&names[0]) {
        Some(n) => n,
        None => return Err(String::from_str("Failed to get text")),
    };
    let wrapper_selector = match html_selector(".num_wrapper") {
        Ok(s) => s,
        Err(e) => return Err(e),
    };
    let wrappers = select_in_element(base, &wrapper_selector);
    if wrappers.len() == 0 {
        return Err(String::from_str("Failed to find num_wrapper"));
    }
    let wrapper = &wrappers[0];
    let temperature_sel = match html_selector("[id^=\"num_ond_\"][class*=\"num no\"]") {
        Ok(s) => s,
        Err(e) => return Err(e),
    };
    let temperature = match scoped_strict(wrapper, &temperature_sel) {
        Ok(t) => t,
        Err(e) => return Err(e),
    };
    let humidity_sel = match html_selector("[id^=\"num_shitudo_\"][class*=\"num no\"]") {
        Ok(s) => s,
        Err(e) => return Err(e),
    };
    let humidity = match scoped_strict(wrapper, &humidity_sel) {
        Ok(h) => h,
        Err(e) => return Err(e),
    };
    Ok((name, temperature, humidity))
}

} // verus!
