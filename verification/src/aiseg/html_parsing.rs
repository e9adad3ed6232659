//! Reading values, digit displays, consumption entries and generation details from pages.
use crate::aiseg::helper::{
    decimal_from_html, first_match, is_ascii_digit, parse_decimal_text_from_html, parse_text_from_html, text_from_html,
};
use crate::aiseg::html::{
    element_attribute, element_text, is_numeric, parse_selector, select_in_document, spec_attribute,
    spec_is_numeric, spec_match_count, spec_selector_error, spec_selector_parses, spec_text, trim, trimmed,
    HtmlDocument, HtmlElement,
};
use crate::error::ParseError;
use crate::text::{chars_of, concat2, decimal_text, push_decimal};
use vstd::prelude::*;

verus! {

/// The trimmed whole text of the first element matching `selector`, when the selector parses and
/// something matches.
pub open spec fn extracted_text(html: Seq<char>, selector: Seq<char>) -> Option<Seq<char>> {
    if spec_selector_parses(selector) && spec_match_count(html, Seq::empty(), selector) > 0 {
        Some(trimmed(spec_text(html, first_match(selector))))
    } else {
        None
    }
}

/// The error reading the text of `selector` gives when there is none.
pub open spec fn is_extract_error(selector: Seq<char>, e: ParseError) -> bool {
    if !spec_selector_parses(selector) {
        e matches ParseError::InvalidSelector { selector: s, message: m } && s@ == selector && m@
            == spec_selector_error(selector)
    } else {
        e matches ParseError::ElementNotFound { selector: s } && s@ == selector
    }
}

/// The trimmed whole text of the first element matching `selector`.
///
/// Fails with `InvalidSelector` when the selector does not parse and with `ElementNotFound` when
/// nothing matches.
pub fn extract_text(document: &HtmlDocument, selector: &str) -> (r: Result<String, ParseError>)
    ensures
        match r {
            Ok(t) => extracted_text(document@, selector@) == Some(t@),
            Err(e) => extracted_text(document@, selector@) is None && is_extract_error(selector@, e),
        },
{
    let compiled = match parse_selector(selector) {
        Ok(s) => s,
        Err(m) => return Err(ParseError::invalid_selector(selector, m.as_str())),
    };
    let matches = select_in_document(document, &compiled);
    if matches.len() == 0 {
        return Err(ParseError::element_not_found(selector));
    }
    let text = element_text(&matches[0]);
    Ok(trim(text.as_str()))
}

/// The title and value texts of a graph page, read with the given selectors, `#h_title` and
/// `#val_kwh` by default.
///
/// Fails as `extract_text` does, on the title first.
pub fn graph_page_texts(document: &HtmlDocument, title_selector: Option<&str>, value_selector: Option<&str>) -> (r:
    Result<(String, String), ParseError>)
    ensures
        ({
            let ts = match title_selector {
                Some(s) => s@,
                None => "#h_title"@,
            };
            let vs = match value_selector {
                Some(s) => s@,
                None => "#val_kwh"@,
            };
            match r {
                Ok((t, v)) => extracted_text(document@, ts) == Some(t@) && extracted_text(document@, vs) == Some(v@),
                Err(e) => (extracted_text(document@, ts) is None && is_extract_error(ts, e)) || (extracted_text(
                    document@,
                    ts,
                ) is Some && extracted_text(document@, vs) is None && is_extract_error(vs, e)),
            }
        }),
{
    let ts = match title_selector {
        Some(s) => s,
        None => "#h_title",
    };
    let vs = match value_selector {
        Some(s) => s,
        None => "#val_kwh",
    };
    let title = match extract_text(document, ts) {
        Ok(t) => t,
        Err(e) => return Err(e),
    };
    let value = match extract_text(document, vs) {
        Ok(v) => v,
        Err(e) => return Err(e),
    };
    Ok((title, value))
}

/// The first numeric character of a text, if any.
pub open spec fn first_numeric(text: Seq<char>) -> Option<char>
    decreases text.len(),
{
    if text.len() == 0 {
        None
    } else if spec_is_numeric(text[0]) {
        Some(text[0])
    } else {
        first_numeric(text.drop_first())
    }
}

/// The digit an element shows through its `class` attribute: the first numeric character of the
/// attribute, `0` when there is none.
pub open spec fn digit_from_class(class: Option<Seq<char>>) -> char {
    match class {
        Some(c) => match first_numeric(c) {
            Some(d) => d,
            None => '0',
        },
        None => '0',
    }
}

/// The document and path of each element.
pub open spec fn element_views<'a>(elements: Seq<HtmlElement<'a>>) -> Seq<(Seq<char>, Seq<(Seq<char>, nat)>)> {
    elements.map_values(|e: HtmlElement<'a>| e@)
}

/// The digit shown by the `i`th element (`0` past the last element).
pub open spec fn digit_at(elements: Seq<(Seq<char>, Seq<(Seq<char>, nat)>)>, i: int) -> char {
    if 0 <= i < elements.len() {
        digit_from_class(spec_attribute(elements[i].0, elements[i].1, "class"@))
    } else {
        '0'
    }
}

/// The value of an ASCII decimal digit.
pub open spec fn digit_value(c: char) -> int {
    c as int - '0' as int
}

/// The text `d0 d1 . d2` of a three-digit display.
pub open spec fn display_text(d0: char, d1: char, d2: char) -> Seq<char> {
    seq![d0, d1, '.', d2]
}

/// The value of a three-digit display `XX.X`, in tenths, when all three are ASCII digits; else
/// the display's text, which is no decimal number.
pub open spec fn display_tenths(d0: char, d1: char, d2: char) -> Result<int, Seq<char>> {
    if is_ascii_digit(d0) && is_ascii_digit(d1) && is_ascii_digit(d2) {
        Ok(100 * digit_value(d0) + 10 * digit_value(d1) + digit_value(d2))
    } else {
        Err(display_text(d0, d1, d2))
    }
}

/// The first numeric character of `text`, if any.
pub(crate) fn first_numeric_char(text: &str) -> (r: Option<char>)
    ensures
        r == first_numeric(text@),
{
    let chars = chars_of(text);
    let mut i: usize = 0;
    proof {
        assert(text@.skip(0) =~= text@);
    }
    while i < chars.len()
        invariant
            chars@ == text@,
            i <= chars@.len(),
            first_numeric(text@) == first_numeric(text@.skip(i as int)),
        decreases chars@.len() - i,
    {
        proof {
            assert(text@.skip(i as int).drop_first() =~= text@.skip(i + 1));
        }
        if is_numeric(chars[i]) {
            return Some(chars[i]);
        }
        i += 1;
    }
    None
}

/// The digit the `i`th element shows through its class.
fn digit_of(elements: &Vec<HtmlElement>, i: usize) -> (r: char)
    ensures
        r == digit_at(element_views(elements@), i as int),
{
    if i < elements.len() {
        match element_attribute(&elements[i], "class") {
            Some(class) => match first_numeric_char(class.as_str()) {
                Some(d) => d,
                None => '0',
            },
            None => '0',
        }
    } else {
        '0'
    }
}

/// The value of a three-digit display `XX.X`, shown by the classes of the first three elements
/// (a missing element or digit reads as `0`), in tenths.
///
/// Fails with `NumberParse` when a digit is a numeric character other than an ASCII digit.
pub fn extract_tenths_from_digit_elements(elements: &Vec<HtmlElement>) -> (r: Result<u32, ParseError>)
    ensures
        ({
            let v = element_views(elements@);
            match display_tenths(digit_at(v, 0), digit_at(v, 1), digit_at(v, 2)) {
                Ok(t) => r == Ok::<u32, ParseError>(t as u32) && t == r->Ok_0,
                Err(text) => r matches Err(ParseError::NumberParse { text: s, message: m }) && s@ == text && m@
                    == "invalid float literal"@,
            }
        }),
{
    let d0 = digit_of(elements, 0);
    let d1 = digit_of(elements, 1);
    let d2 = digit_of(elements, 2);
    if '0' <= d0 && d0 <= '9' && '0' <= d1 && d1 <= '9' && '0' <= d2 && d2 <= '9' {
        let t = 100 * (d0 as u32 - '0' as u32) + 10 * (d1 as u32 - '0' as u32) + (d2 as u32 - '0' as u32);
        Ok(t)
    } else {
        let mut text = String::new();
        crate::text::push_char(&mut text, d0);
        crate::text::push_char(&mut text, d1);
        crate::text::push_char(&mut text, '.');
        crate::text::push_char(&mut text, d2);
        proof {
            assert(text@ =~= display_text(d0, d1, d2));
        }
        Err(ParseError::number_parse(text.as_str(), "invalid float literal"))
    }
}

/// What a consumption entry of a page gives: the device name and, when it reads as a decimal
/// number, the value text; nothing when there is no device name.
pub open spec fn consumption_device(html: Seq<char>, stage_id: Seq<char>) -> Option<(Seq<char>, Option<Seq<char>>)> {
    match text_from_html(html, stage_id + " > div.c_device"@) {
        Err(_) => None,
        Ok(name) => Some(
            (
                name,
                match decimal_from_html(html, stage_id + " > div.c_value"@) {
                    Ok(v) => Some(v),
                    Err(_) => None,
                },
            ),
        ),
    }
}

/// An optional text taken by its characters.
pub open spec fn opt_text(o: Option<String>) -> Option<Seq<char>> {
    match o {
        Some(s) => Some(s@),
        None => None,
    }
}

/// Reads the consumption entry under `stage_id`: the device name and the value text.
pub fn parse_consumption_device(document: &HtmlDocument, stage_id: &str) -> (r: Option<(String, Option<String>)>)
    ensures
        match r {
            Some((n, v)) => consumption_device(document@, stage_id@) == Some((n@, opt_text(v))),
            None => consumption_device(document@, stage_id@) is None,
        },
{
    let device_selector = concat2(stage_id, " > div.c_device");
    let name = match parse_text_from_html(document, device_selector.as_str()) {
        Ok(n) => n,
        Err(_) => return None,
    };
    let value_selector = concat2(stage_id, " > div.c_value");
    let value = match parse_decimal_text_from_html(document, value_selector.as_str()) {
        Ok(v) => Some(v),
        Err(_) => None,
    };
    Some((name, value))
}

/// The selector of the title of the `i`th generation source.
pub open spec fn generation_title_selector(i: nat) -> Seq<char> {
    "#g_d_"@ + decimal_text(i) + "_title"@
}

/// The selector of the capacity of the `i`th generation source.
pub open spec fn generation_capacity_selector(i: nat) -> Seq<char> {
    "#g_d_"@ + decimal_text(i) + "_capacity"@
}

/// The generation sources from the `i`th to the `max`th: they stop before the first one without
/// a title; the first capacity that does not read as a decimal number fails the whole.
pub open spec fn generation_details_from(html: Seq<char>, i: nat, max: nat) -> Result<
    Seq<(Seq<char>, Seq<char>)>,
    Seq<char>,
>
    decreases max + 1 - i,
{
    if i > max {
        Ok(Seq::empty())
    } else {
        match text_from_html(html, generation_title_selector(i)) {
            Err(_) => Ok(Seq::empty()),
            Ok(name) => match decimal_from_html(html, generation_capacity_selector(i)) {
                Err(e) => Err(e),
                Ok(v) => match generation_details_from(html, i + 1, max) {
                    Ok(rest) => Ok(seq![(name, v)] + rest),
                    Err(e) => Err(e),
                },
            },
        }
    }
}

/// Pairs of texts taken by their characters.
pub open spec fn text_pairs(v: Seq<(String, String)>) -> Seq<(Seq<char>, Seq<char>)> {
    v.map_values(|p: (String, String)| (p.0@, p.1@))
}

/// `done` followed by the outcome `rest`.
pub open spec fn after(done: Seq<(Seq<char>, Seq<char>)>, rest: Result<Seq<(Seq<char>, Seq<char>)>, Seq<char>>) -> Result<
    Seq<(Seq<char>, Seq<char>)>,
    Seq<char>,
> {
    match rest {
        Ok(s) => Ok(done + s),
        Err(e) => Err(e),
    }
}

/// `prefix`, the decimal text of `i`, then `suffix`.
pub fn numbered(prefix: &str, i: usize, suffix: &str) -> (r: String)
    ensures
        r@ == prefix@ + decimal_text(i as nat) + suffix@,
{
    let mut s = String::from_str(prefix);
    push_decimal(&mut s, i as u64);
    s.append(suffix);
    s
}

/// The names and capacity texts of generation sources 1 to `max_items`, in order.
///
/// Stops before the first source without a title; fails with the message of the first capacity
/// that does not read as a decimal number.
pub fn parse_generation_details(document: &HtmlDocument, max_items: usize) -> (r: Result<Vec<(String, String)>, String>)
    ensures
        match r {
            Ok(v) => generation_details_from(document@, 1, max_items as nat) == Ok::<
                Seq<(Seq<char>, Seq<char>)>,
                Seq<char>,
            >(text_pairs(v@)),
            Err(e) => generation_details_from(document@, 1, max_items as nat) == Err::<
                Seq<(Seq<char>, Seq<char>)>,
                Seq<char>,
            >(e@),
        },
{
    let mut results: Vec<(String, String)> = Vec::new();
    let mut k: usize = 0;
    proof {
        assert(text_pairs(results@) =~= Seq::empty());
        assert(after(Seq::empty(), generation_details_from(document@, 1, max_items as nat)) == generation_details_from(
            document@,
            1,
            max_items as nat,
        )) by {
            match generation_details_from(document@, 1, max_items as nat) {
                Ok(s) => assert(Seq::<(Seq<char>, Seq<char>)>::empty() + s =~= s),
                Err(_) => {},
            }
        }
    }
    while k < max_items
        invariant
            k <= max_items,
            after(text_pairs(results@), generation_details_from(document@, k as nat + 1, max_items as nat))
                == generation_details_from(document@, 1, max_items as nat),
        decreases max_items - k,
    {
        let i = k + 1;
        let title_selector = numbered("#g_d_", i, "_title");
        let name = match parse_text_from_html(document, title_selector.as_str()) {
            Ok(n) => n,
            Err(_) => {
                proof {
                    assert(text_pairs(results@) + Seq::empty() =~= text_pairs(results@));
                }
                return Ok(results);
            },
        };
        let capacity_selector = numbered("#g_d_", i, "_capacity");
        let value = match parse_decimal_text_from_html(document, capacity_selector.as_str()) {
            Ok(v) => v,
            Err(e) => return Err(e),
        };
        let ghost before = text_pairs(results@);
        let ghost entry = (name@, value@);
        results.push((name, value));
        proof {
            assert(text_pairs(results@) =~= before.push(entry));
            match generation_details_from(document@, i as nat + 1, max_items as nat) {
                Ok(rest) => {
                    assert(before + (seq![entry] + rest) =~= before.push(entry) + rest);
                },
                Err(_) => {},
            }
        }
        k = i;
    }
    proof {
        assert(text_pairs(results@) + Seq::empty() =~= text_pairs(results@));
    }
    Ok(results)
}

} // verus!
