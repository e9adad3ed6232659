//! HTML pages shaped like the AiSEG2 ones, for exercising the parsers.
use crate::aiseg::html::{parse_document, HtmlDocument};
use crate::text::{decimal_text, push_char, push_decimal};
use vstd::prelude::*;

verus! {

/// A page with a title element and a kWh value element.
pub open spec fn title_value_html(title: Seq<char>, value: Seq<char>) -> Seq<char> {
    "<html><body>\n            <div id=\"h_title\">"@ + title + "</div>\n            <div id=\"val_kwh\">"@ + value
        + "</div>\n        </body></html>"@
}

/// A page with only a kWh value element.
pub open spec fn value_only_html(value: Seq<char>) -> Seq<char> {
    "<html><body><div id=\"val_kwh\">"@ + value + "</div></body></html>"@
}

/// A page with the generation and consumption capacities.
pub open spec fn power_flow_html(generation: Seq<char>, consumption: Seq<char>) -> Seq<char> {
    "<html><body>\n            <div id=\"g_capacity\">"@ + generation + "</div>\n            <div id=\"u_capacity\">"@
        + consumption + "</div>\n        </body></html>"@
}

/// The title and capacity elements of generation source `index`.
pub open spec fn generation_source_html(index: nat, title: Seq<char>, capacity: Seq<char>) -> Seq<char> {
    "<div id=\"g_d_"@ + decimal_text(index) + "_title\"><span>"@ + title + "</span></div>\n               <div id=\"g_d_"@
        + decimal_text(index) + "_capacity\"><span>"@ + capacity + "</span></div>"@
}

/// The elements of the generation sources, in order.
pub open spec fn generation_sources_html(sources: Seq<(usize, &str, &str)>) -> Seq<char>
    decreases sources.len(),
{
    if sources.len() == 0 {
        Seq::empty()
    } else {
        generation_sources_html(sources.drop_last()) + generation_source_html(
            sources.last().0 as nat,
            sources.last().1@,
            sources.last().2@,
        )
    }
}

/// The stage element of consumption device `index`.
pub open spec fn consumption_device_html(index: nat, device: Seq<char>, value: Seq<char>) -> Seq<char> {
    "<div id=\"stage_"@ + decimal_text(index) + "\">\n                <div class=\"c_device\"><span>"@ + device
        + "</span></div>\n                <div class=\"c_value\"><span>"@ + value
        + "</span></div>\n            </div>"@
}

/// The stage elements of the consumption devices, in order.
pub open spec fn consumption_devices_html(devices: Seq<(usize, &str, &str)>) -> Seq<char>
    decreases devices.len(),
{
    if devices.len() == 0 {
        Seq::empty()
    } else {
        consumption_devices_html(devices.drop_last()) + consumption_device_html(
            devices.last().0 as nat,
            devices.last().1@,
            devices.last().2@,
        )
    }
}

/// The `k`-th character of `digits`, or `0` past its end.
pub open spec fn digit_or_zero(digits: Seq<char>, k: int) -> char {
    if k < digits.len() {
        digits[k]
    } else {
        '0'
    }
}

/// One digit span of a climate reading.
pub open spec fn digit_span_html(kind: Seq<char>, base: nat, position: Seq<char>, digit: char) -> Seq<char> {
    "\n                    <span id=\""@ + kind + decimal_text(base) + "_"@ + position + "\" class=\"num no"@ + seq![digit]
        + "\"></span>"@
}

/// The block of climate location number `base`: its name, then three temperature and three
/// humidity digit spans.
pub open spec fn climate_location_html(base: nat, name: Seq<char>, temperature: Seq<char>, humidity: Seq<char>) -> Seq<char> {
    "\n            <div id=\"base"@ + decimal_text(base) + "_1\">\n                <div class=\"txt_name\">"@ + name
        + "</div>\n                <div class=\"num_wrapper\">"@
        + digit_span_html("num_ond_"@, base, "1"@, digit_or_zero(temperature, 0))
        + digit_span_html("num_ond_"@, base, "2"@, digit_or_zero(temperature, 1))
        + digit_span_html("num_ond_"@, base, "3"@, digit_or_zero(temperature, 2))
        + digit_span_html("num_shitudo_"@, base, "1"@, digit_or_zero(humidity, 0))
        + digit_span_html("num_shitudo_"@, base, "2"@, digit_or_zero(humidity, 1))
        + digit_span_html("num_shitudo_"@, base, "3"@, digit_or_zero(humidity, 2))
        + "\n                </div>\n            </div>"@
}

/// The blocks of the climate locations, numbered from 1 in order.
pub open spec fn climate_locations_html(locations: Seq<(&str, &str, &str)>) -> Seq<char>
    decreases locations.len(),
{
    if locations.len() == 0 {
        Seq::empty()
    } else {
        climate_locations_html(locations.drop_last()) + climate_location_html(
            locations.len(),
            locations.last().0@,
            locations.last().1@,
            locations.last().2@,
        )
    }
}

/// Parses an HTML document from its text.
pub fn create_html_document(content: &str) -> (r: HtmlDocument)
    ensures
        r@ == content@,
{
    parse_document(content)
}

/// Creates an HTML response with a title element and a value element, as the daily total
/// graph pages have.
pub fn create_title_value_html(title: &str, value: &str) -> (r: String)
    ensures
        r@ == title_value_html(title@, value@),
{
    let mut s = String::from_str("<html><body>\n            <div id=\"h_title\">");
    s.append(title);
    s.append("</div>\n            <div id=\"val_kwh\">");
    s.append(value);
    s.append("</div>\n        </body></html>");
    s
}

/// Creates an HTML response with only a value element, as the circuit graph pages have.
pub fn create_value_only_html(value: &str) -> (r: String)
    ensures
        r@ == value_only_html(value@),
{
    let mut s = String::from_str("<html><body><div id=\"val_kwh\">");
    s.append(value);
    s.append("</div></body></html>");
    s
}

/// Creates an HTML response with the generation and consumption capacities.
pub fn create_power_flow_html(generation: &str, consumption: &str) -> (r: String)
    ensures
        r@ == power_flow_html(generation@, consumption@),
{
    let mut s = String::from_str("<html><body>\n            <div id=\"g_capacity\">");
    s.append(generation);
    s.append("</div>\n            <div id=\"u_capacity\">");
    s.append(consumption);
    s.append("</div>\n        </body></html>");
    s
}

/// Appends the title and capacity elements of a generation source.
pub fn push_generation_source(s: &mut String, index: usize, title: &str, capacity: &str)
    ensures
        final(s)@ == old(s)@ + generation_source_html(index as nat, title@, capacity@),
{
    let ghost before = s@;
    s.append("<div id=\"g_d_");
    push_decimal(s, index as u64);
    s.append("_title\"><span>");
    s.append(title);
    s.append("</span></div>\n               <div id=\"g_d_");
    push_decimal(s, index as u64);
    s.append("_capacity\"><span>");
    s.append(capacity);
    s.append("</span></div>");
    proof {
        assert(s@ =~= before + generation_source_html(index as nat, title@, capacity@));
    }
}

/// Creates an HTML response with the title and capacity elements of several generation sources.
pub fn create_generation_details_html(sources: &[(usize, &str, &str)]) -> (r: String)
    ensures
        r@ == "<html><body>"@ + generation_sources_html(sources@) + "</body></html>"@,
{
    let mut s = String::from_str("<html><body>");
    let mut i: usize = 0;
    while i < sources.len()
        invariant
            i <= sources@.len(),
            s@ == "<html><body>"@ + generation_sources_html(sources@.take(i as int)),
        decreases sources@.len() - i,
    {
        let (index, title, capacity) = sources[i];
        push_generation_source(&mut s, index, title, capacity);
        proof {
            assert(sources@.take(i + 1).drop_last() =~= sources@.take(i as int));
        }
        i += 1;
    }
    proof {
        assert(sources@.take(sources@.len() as int) =~= sources@);
    }
    s.append("</body></html>");
    s
}

/// Appends the stage element of a consumption device.
pub fn push_consumption_device(s: &mut String, index: usize, device: &str, value: &str)
    ensures
        final(s)@ == old(s)@ + consumption_device_html(index as nat, device@, value@),
{
    let ghost before = s@;
    s.append("<div id=\"stage_");
    push_decimal(s, index as u64);
    s.append("\">\n                <div class=\"c_device\"><span>");
    s.append(device);
    s.append("</span></div>\n                <div class=\"c_value\"><span>");
    s.append(value);
    s.append("</span></div>\n            </div>");
    proof {
        assert(s@ =~= before + consumption_device_html(index as nat, device@, value@));
    }
}

/// Creates an HTML response with the stage elements of several consumption devices.
pub fn create_consumption_devices_html(devices: &[(usize, &str, &str)]) -> (r: String)
    ensures
        r@ == "<html><body>"@ + consumption_devices_html(devices@) + "</body></html>"@,
{
    let mut s = String::from_str("<html><body>");
    let mut i: usize = 0;
    while i < devices.len()
        invariant
            i <= devices@.len(),
            s@ == "<html><body>"@ + consumption_devices_html(devices@.take(i as int)),
        decreases devices@.len() - i,
    {
        let (index, device, value) = devices[i];
        push_consumption_device(&mut s, index, device, value);
        proof {
            assert(devices@.take(i + 1).drop_last() =~= devices@.take(i as int));
        }
        i += 1;
    }
    proof {
        assert(devices@.take(devices@.len() as int) =~= devices@);
    }
    s.append("</body></html>");
    s
}

/// The `k`-th character of `digits`, or `0` past its end.
fn nth_digit_or_zero(digits: &str, k: usize) -> (r: char)
    ensures
        r == digit_or_zero(digits@, k as int),
{
    if k < digits.unicode_len() {
        digits.get_char(k)
    } else {
        '0'
    }
}

/// Appends one digit span of a climate reading.
fn push_digit_span(s: &mut String, kind: &str, base: usize, position: &str, digit: char)
    ensures
        final(s)@ == old(s)@ + digit_span_html(kind@, base as nat, position@, digit),
{
    let ghost before = s@;
    s.append("\n                    <span id=\"");
    s.append(kind);
    push_decimal(s, base as u64);
    s.append("_");
    s.append(position);
    s.append("\" class=\"num no");
    push_char(s, digit);
    s.append("\"></span>");
    proof {
        assert(s@ =~= before + digit_span_html(kind@, base as nat, position@, digit));
    }
}

/// Appends the block of a climate location.
pub fn push_climate_location(s: &mut String, base: usize, name: &str, temperature: &str, humidity: &str)
    ensures
        final(s)@ == old(s)@ + climate_location_html(base as nat, name@, temperature@, humidity@),
{
    let ghost before = s@;
    s.append("\n            <div id=\"base");
    push_decimal(s, base as u64);
    s.append("_1\">\n                <div class=\"txt_name\">");
    s.append(name);
    s.append("</div>\n                <div class=\"num_wrapper\">");
    push_digit_span(s, "num_ond_", base, "1", nth_digit_or_zero(temperature, 0));
    push_digit_span(s, "num_ond_", base, "2", nth_digit_or_zero(temperature, 1));
    push_digit_span(s, "num_ond_", base, "3", nth_digit_or_zero(temperature, 2));
    push_digit_span(s, "num_shitudo_", base, "1", nth_digit_or_zero(humidity, 0));
    push_digit_span(s, "num_shitudo_", base, "2", nth_digit_or_zero(humidity, 1));
    push_digit_span(s, "num_shitudo_", base, "3", nth_digit_or_zero(humidity, 2));
    s.append("\n                </div>\n            </div>");
    proof {
        assert(s@ =~= before + climate_location_html(base as nat, name@, temperature@, humidity@));
    }
}

/// Creates an HTML response for climate data, each location given by its name and the digits
/// of its temperature and humidity (missing digits are shown as 0).
pub fn create_climate_html(locations: Vec<(&str, &str, &str)>) -> (r: String)
    ensures
        r@ == "<html><body>"@ + climate_locations_html(locations@) + "</body></html>"@,
{
    let mut s = String::from_str("<html><body>");
    let mut i: usize = 0;
    while i < locations.len()
        invariant
            i <= locations@.len(),
            s@ == "<html><body>"@ + climate_locations_html(locations@.take(i as int)),
        decreases locations@.len() - i,
    {
        let (name, temperature, humidity) = locations[i];
        push_climate_location(&mut s, i + 1, name, temperature, humidity);
        proof {
            assert(locations@.take(i + 1).drop_last() =~= locations@.take(i as int));
        }
        i += 1;
    }
    proof {
        assert(locations@.take(locations@.len() as int) =~= locations@);
    }
    s.append("</body></html>");
    s
}

} // verus!
