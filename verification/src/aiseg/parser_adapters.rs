//! The parsers of the power and climate pages.
use crate::aiseg::helper::{
    decimal_from_html, first_match, html_selector, parse_decimal_text_from_html, selector_failure,
};
use crate::aiseg::html::{
    element_first_text, select_in_document, select_in_element, spec_attribute, spec_first_text, spec_match_count,
    spec_selector_parses, HtmlDocument,
};
use crate::aiseg::html_parsing::{
    consumption_device, digit_at, digit_from_class, display_tenths, element_views,
    extract_tenths_from_digit_elements, generation_details_from, numbered, opt_text, parse_consumption_device,
    parse_generation_details, text_pairs,
};
use crate::aiseg::metrics::{create_climate_readings, ClimateReading};
use crate::aiseg::parser_traits::HtmlParser;
use crate::error::parse_error_text;
use crate::model::types::{labeled_name, with_unit, ClimateStatusMetricCategory, Unit};
use crate::text::{decimal_text, push_decimal};
use vstd::prelude::*;

verus! {

/// Parser of the totals of the main power page: generation and consumption, as decimal texts.
pub struct TotalPowerParserAdapter;

impl HtmlParser for TotalPowerParserAdapter {
    type Output = (String, String);

    /// Reads `#g_capacity`, then `#u_capacity`.
    fn parse(&self, document: &HtmlDocument) -> (r: Result<(String, String), String>)
        ensures
            match r {
                Ok((g, c)) => decimal_from_html(document@, "#g_capacity"@) == Ok::<Seq<char>, Seq<char>>(g@)
                    && decimal_from_html(document@, "#u_capacity"@) == Ok::<Seq<char>, Seq<char>>(c@),
                Err(e) => decimal_from_html(document@, "#g_capacity"@) == Err::<Seq<char>, Seq<char>>(e@) || (
                decimal_from_html(document@, "#g_capacity"@) is Ok && decimal_from_html(document@, "#u_capacity"@)
                    == Err::<Seq<char>, Seq<char>>(e@)),
            },
    {
        let generation = match parse_decimal_text_from_html(document, "#g_capacity") {
            Ok(g) => g,
            Err(e) => return Err(e),
        };
        let consumption = match parse_decimal_text_from_html(document, "#u_capacity") {
            Ok(c) => c,
            Err(e) => return Err(e),
        };
        Ok((generation, consumption))
    }
}

/// Parser of the generation sources of the main power page: up to four names with their
/// capacity texts.
pub struct GenerationSourcesParserAdapter;

impl HtmlParser for GenerationSourcesParserAdapter {
    type Output = Vec<(String, String)>;

    /// Reads sources 1 to 4 as `parse_generation_details` does.
    fn parse(&self, document: &HtmlDocument) -> (r: Result<Vec<(String, String)>, String>)
        ensures
            match r {
                Ok(v) => generation_details_from(document@, 1, 4) == Ok::<Seq<(Seq<char>, Seq<char>)>, Seq<char>>(
                    text_pairs(v@),
                ),
                Err(e) => generation_details_from(document@, 1, 4) == Err::<Seq<(Seq<char>, Seq<char>)>, Seq<char>>(
                    e@,
                ),
            },
    {
        parse_generation_details(document, 4)
    }
}

/// The selector of the `i`th consumption entry.
pub open spec fn stage_selector(i: nat) -> Seq<char> {
    "#stage_"@ + decimal_text(i)
}

/// The consumption entries from the `i`th to the tenth, stopping before the first one without a
/// device name: each device name followed by `(W)`, with its value text when it has one.
pub open spec fn consumption_page_from(html: Seq<char>, i: nat) -> Seq<(Seq<char>, Option<Seq<char>>)>
    decreases 11 - i,
{
    if i > 10 {
        Seq::empty()
    } else {
        match consumption_device(html, stage_selector(i)) {
            None => Seq::empty(),
            Some((name, v)) => seq![(labeled_name(name, Unit::Watt), v)] + consumption_page_from(html, i + 1),
        }
    }
}

/// Entries taken by their characters.
pub open spec fn entry_views(v: Seq<(String, Option<String>)>) -> Seq<(Seq<char>, Option<Seq<char>>)> {
    v.map_values(|e: (String, Option<String>)| (e.0@, opt_text(e.1)))
}

/// Parser of a consumption page: up to ten devices, each named `name(W)`, with their value texts.
pub struct ConsumptionPageParserAdapter;

impl HtmlParser for ConsumptionPageParserAdapter {
    type Output = Vec<(String, Option<String>)>;

    /// Reads `#stage_1` to `#stage_10`, stopping at the first without a device name.
    fn parse(&self, document: &HtmlDocument) -> (r: Result<Vec<(String, Option<String>)>, String>)
        ensures
            r matches Ok(v) && entry_views(v@) == consumption_page_from(document@, 1),
    {
        let mut items: Vec<(String, Option<String>)> = Vec::new();
        let mut k: usize = 0;
        proof {
            assert(entry_views(items@) + consumption_page_from(document@, 1) =~= consumption_page_from(document@, 1));
        }
        while k < 10
            invariant
                k <= 10,
                entry_views(items@) + consumption_page_from(document@, k as nat + 1) == consumption_page_from(
                    document@,
                    1,
                ),
            decreases 10 - k,
        {
            let i = k + 1;
            let mut stage_id = String::from_str("#stage_");
            push_decimal(&mut stage_id, i as u64);
            match parse_consumption_device(document, stage_id.as_str()) {
                Some((name, value)) => {
                    let ghost before = entry_views(items@);
                    let labeled = with_unit(name.as_str(), Unit::Watt);
                    let ghost entry = (labeled@, opt_text(value));
                    items.push((labeled, value));
                    proof {
                        assert(entry_views(items@) =~= before.push(entry));
                        assert(before + (seq![entry] + consumption_page_from(document@, i as nat + 1)) =~= before.push(
                            entry,
                        ) + consumption_page_from(document@, i as nat + 1));
                    }
                },
                None => {
                    proof {
                        assert(entry_views(items@) + Seq::empty() =~= entry_views(items@));
                    }
                    return Ok(items);
                },
            }
            k = i;
        }
        proof {
            assert(entry_views(items@) + Seq::empty() =~= entry_views(items@));
        }
        Ok(items)
    }
}

/// The selector of the temperature digits of a place.
pub open spec fn temperature_selector() -> Seq<char> {
    "[id^=\"num_ond_\"][class*=\"num no\"]"@
}

/// The selector of the humidity digits of a place.
pub open spec fn humidity_selector() -> Seq<char> {
    "[id^=\"num_shitudo_\"][class*=\"num no\"]"@
}

/// The digit shown by the `i`th element matching `selector` within the element at `scope`.
pub open spec fn scoped_digit(html: Seq<char>, scope: Seq<(Seq<char>, nat)>, selector: Seq<char>, i: int) -> char {
    if 0 <= i < spec_match_count(html, scope, selector) {
        digit_from_class(spec_attribute(html, scope.push((selector, i as nat)), "class"@))
    } else {
        '0'
    }
}

/// The three-digit display formed by the elements matching `selector` within `scope`.
pub open spec fn scoped_display(html: Seq<char>, scope: Seq<(Seq<char>, nat)>, selector: Seq<char>) -> Result<
    int,
    Seq<char>,
> {
    display_tenths(
        scoped_digit(html, scope, selector, 0),
        scoped_digit(html, scope, selector, 1),
        scoped_digit(html, scope, selector, 2),
    )
}

/// The message of a display whose text is no decimal number.
pub open spec fn display_error_text(text: Seq<char>) -> Seq<char> {
    "failed to parse number from '"@ + text + "': "@ + "invalid float literal"@
}

/// What the place under `base_id` gives: its name with its temperature and humidity in tenths,
/// or the message of the first thing missing.
pub open spec fn climate_location(html: Seq<char>, base_id: Seq<char>) -> Result<(Seq<char>, int, int), Seq<char>> {
    let base = first_match(base_id);
    let wrapper = base.push((".num_wrapper"@, 0nat));
    if !spec_selector_parses(base_id) {
        Err(selector_failure(base_id))
    } else if spec_match_count(html, Seq::empty(), base_id) == 0 {
        Err("Failed to find base element"@)
    } else if !spec_selector_parses(".txt_name"@) {
        Err(selector_failure(".txt_name"@))
    } else if spec_match_count(html, base, ".txt_name"@) == 0 {
        Err("Failed to find name"@)
    } else {
        match spec_first_text(html, base.push((".txt_name"@, 0nat))) {
            None => Err("Failed to get text"@),
            Some(name) => if !spec_selector_parses(".num_wrapper"@) {
                Err(selector_failure(".num_wrapper"@))
            } else if spec_match_count(html, base, ".num_wrapper"@) == 0 {
                Err("Failed to find num_wrapper"@)
            } else if !spec_selector_parses(temperature_selector()) {
                Err(selector_failure(temperature_selector()))
            } else {
                match scoped_display(html, wrapper, temperature_selector()) {
                    Err(t) => Err(display_error_text(t)),
                    Ok(temperature) => if !spec_selector_parses(humidity_selector()) {
                        Err(selector_failure(humidity_selector()))
                    } else {
                        match scoped_display(html, wrapper, humidity_selector()) {
                            Err(t) => Err(display_error_text(t)),
                            Ok(humidity) => Ok((name, temperature, humidity)),
                        }
                    },
                }
            },
        }
    }
}

/// The selector of the `i`th place of a climate page.
pub open spec fn base_selector(i: nat) -> Seq<char> {
    "#base"@ + decimal_text(i) + "_1"@
}

/// The readings of the places from the `i`th to the third, stopping before the first place that
/// does not read: temperature then humidity of each.
pub open spec fn climate_page_from(html: Seq<char>, i: nat) -> Seq<(ClimateStatusMetricCategory, Seq<char>, int)>
    decreases 4 - i,
{
    if i > 3 {
        Seq::empty()
    } else {
        match climate_location(html, base_selector(i)) {
            Err(_) => Seq::empty(),
            Ok((name, t, h)) => seq![
                (ClimateStatusMetricCategory::Temperature, name, t),
                (ClimateStatusMetricCategory::Humidity, name, h),
            ] + climate_page_from(html, i + 1),
        }
    }
}

/// Readings taken by category, place and tenths.
pub open spec fn reading_views(v: Seq<ClimateReading>) -> Seq<(ClimateStatusMetricCategory, Seq<char>, int)> {
    v.map_values(|r: ClimateReading| (r.category, r.name@, r.tenths as int))
}

/// Parser of a climate page: the temperature and humidity of up to three places.
pub struct ClimatePageParserAdapter;

impl ClimatePageParserAdapter {
    /// The display under `selector` within the element `scope`, in tenths, or its message.
    fn scoped_tenths(
        &self,
        scope: &crate::aiseg::html::HtmlElement,
        selector: &crate::aiseg::html::CssSelector,
    ) -> (r: Result<u32, String>)
        ensures
            match scoped_display(scope@.0, scope@.1, selector@) {
                Ok(t) => r == Ok::<u32, String>(t as u32) && t == r->Ok_0,
                Err(text) => r matches Err(m) && m@ == display_error_text(text),
            },
    {
        let elements = select_in_element(scope, selector);
        proof {
            let v = element_views(elements@);
            assert forall|i: int| 0 <= i < 3 implies digit_at(v, i) == scoped_digit(scope@.0, scope@.1, selector@, i) by {
                if i < elements@.len() {
                    assert(v[i] == elements@[i]@);
                }
            }
        }
        match extract_tenths_from_digit_elements(&elements) {
            Ok(t) => Ok(t),
            Err(e) => {
                let m = e.to_string();
                proof {
                    assert(parse_error_text(e) == m@);
                }
                Err(m)
            },
        }
    }

    /// Reads the place under `base_id`: its name, then its temperature and humidity in tenths.
    pub fn parse_climate_location(&self, document: &HtmlDocument, base_id: &str) -> (r: Result<(String, u32, u32), String>)
        ensures
            match r {
                Ok((n, t, h)) => climate_location(document@, base_id@) == Ok::<(Seq<char>, int, int), Seq<char>>(
                    (n@, t as int, h as int),
                ),
                Err(e) => climate_location(document@, base_id@) == Err::<(Seq<char>, int, int), Seq<char>>(e@),
            },
    {
        let base_selector = match html_selector(base_id) {
            Ok(s) => s,
            Err(e) => return Err(e),
        };
        let bases = select_in_document(document, &base_selector);
        if bases.len() == 0 {
            return Err(String::from_str("Failed to find base element"));
        }
        let base = &bases[0];
        let name_selector = match html_selector(".txt_name") {
            Ok(s) => s,
            Err(e) => return Err(e),
        };
        let names = select_in_element(base, &name_selector);
        if names.len() == 0 {
            return Err(String::from_str("Failed to find name"));
        }
        let name = match element_first_text(&names[0]) {
            Some(n) => n,
            None => return Err(String::from_str("Failed to get text")),
        };
        let wrapper_selector = match html_selector(".num_wrapper") {
            Ok(s) => s,
            Err(e) => return Err(e),
        };
        let wrappers = select_in_element(base, &wrapper_selector);
        if wrappers.len() == 0 {
            return Err(String::from_str("Failed to find num_wrapper"));
        }
        let wrapper = &wrappers[0];
        let temperature_sel = match html_selector("[id^=\"num_ond_\"][class*=\"num no\"]") {
            Ok(s) => s,
            Err(e) => return Err(e),
        };
        let temperature = match self.scoped_tenths(wrapper, &temperature_sel) {
            Ok(t) => t,
            Err(e) => return Err(e),
        };
        let humidity_sel = match html_selector("[id^=\"num_shitudo_\"][class*=\"num no\"]") {
            Ok(s) => s,
            Err(e) => return Err(e),
        };
        let humidity = match self.scoped_tenths(wrapper, &humidity_sel) {
            Ok(h) => h,
            Err(e) => return Err(e),
        };
        Ok((name, temperature, humidity))
    }
}

impl HtmlParser for ClimatePageParserAdapter {
    type Output = Vec<ClimateReading>;

    /// Reads `#base1_1` to `#base3_1`, stopping at the first place that does not read.
    fn parse(&self, document: &HtmlDocument) -> (r: Result<Vec<ClimateReading>, String>)
        ensures
            r matches Ok(v) && reading_views(v@) == climate_page_from(document@, 1),
    {
        let mut readings: Vec<ClimateReading> = Vec::new();
        let mut k: usize = 0;
        proof {
            assert(reading_views(readings@) + climate_page_from(document@, 1) =~= climate_page_from(document@, 1));
        }
        while k < 3
            invariant
                k <= 3,
                reading_views(readings@) + climate_page_from(document@, k as nat + 1) == climate_page_from(
                    document@,
                    1,
                ),
            decreases 3 - k,
        {
            let i = k + 1;
            let base_id = numbered("#base", i, "_1");
            match self.parse_climate_location(document, base_id.as_str()) {
                Ok((name, temperature, humidity)) => {
                    let ghost before = reading_views(readings@);
                    let ghost n = name@;
                    let pair = create_climate_readings(name, temperature, humidity);
                    readings.push(pair[0].clone_reading());
                    readings.push(pair[1].clone_reading());
                    proof {
                        let added = seq![
                            (ClimateStatusMetricCategory::Temperature, n, temperature as int),
                            (ClimateStatusMetricCategory::Humidity, n, humidity as int),
                        ];
                        assert(reading_views(readings@) =~= before + added);
                        assert(before + (added + climate_page_from(document@, i as nat + 1)) =~= (before + added)
                            + climate_page_from(document@, i as nat + 1));
                    }
                },
                Err(_) => {
                    proof {
                        assert(reading_views(readings@) + Seq::empty() =~= reading_views(readings@));
                    }
                    return Ok(readings);
                },
            }
            k = i;
        }
        proof {
            assert(reading_views(readings@) + Seq::empty() =~= reading_views(readings@));
        }
        Ok(readings)
    }
}

impl ClimateReading {
    /// A copy of the reading.
    pub fn clone_reading(&self) -> (r: ClimateReading)
        ensures
            r.category == self.category && r.name@ == self.name@ && r.tenths == self.tenths,
    {
        ClimateReading { category: self.category, name: String::from_str(self.name.as_str()), tenths: self.tenths }
    }
}

/// The device names of the consumption entries from the `i`th to the `max`th, stopping before the
/// first one without a device name.
pub open spec fn device_names_from(html: Seq<char>, i: nat, max: nat) -> Seq<Seq<char>>
    decreases max + 1 - i,
{
    if i > max {
        Seq::empty()
    } else {
        match consumption_device(html, stage_selector(i)) {
            None => Seq::empty(),
            Some((name, _)) => seq![name] + device_names_from(html, i + 1, max),
        }
    }
}

/// Strings taken by their characters.
pub open spec fn string_views(v: Seq<String>) -> Seq<Seq<char>> {
    v.map_values(|s: String| s@)
}

/// Parser of the device names of a consumption page, up to a number of devices.
pub struct CustomPowerParser {
    max_devices: usize,
}

impl CustomPowerParser {
    /// How many devices the parser reads at most.
    pub closed spec fn spec_max_devices(self) -> nat {
        self.max_devices as nat
    }

    /// A parser of up to `max_devices` device names.
    pub fn new(max_devices: usize) -> (r: Self)
        ensures
            r.spec_max_devices() == max_devices,
    {
        CustomPowerParser { max_devices }
    }
}

impl HtmlParser for CustomPowerParser {
    type Output = Vec<String>;

    /// Reads the device names of `#stage_1` onwards, stopping at the first entry without one.
    fn parse(&self, document: &HtmlDocument) -> (r: Result<Vec<String>, String>)
        ensures
            r matches Ok(v) && string_views(v@) == device_names_from(document@, 1, self.spec_max_devices()),
    {
        let max = self.max_devices;
        let mut names: Vec<String> = Vec::new();
        let mut k: usize = 0;
        proof {
            assert(string_views(names@) + device_names_from(document@, 1, max as nat) =~= device_names_from(
                document@,
                1,
                max as nat,
            ));
        }
        while k < max
            invariant
                k <= max,
                max == self.spec_max_devices(),
                string_views(names@) + device_names_from(document@, k as nat + 1, max as nat) == device_names_from(
                    document@,
                    1,
                    max as nat,
                ),
            decreases max - k,
        {
            let i = k + 1;
            let mut stage_id = String::from_str("#stage_");
            push_decimal(&mut stage_id, i as u64);
            match parse_consumption_device(document, stage_id.as_str()) {
                Some((name, _)) => {
                    let ghost before = string_views(names@);
                    let ghost n = name@;
                    names.push(name);
                    proof {
                        assert(string_views(names@) =~= before.push(n));
                        assert(before + (seq![n] + device_names_from(document@, i as nat + 1, max as nat)) =~= before.push(
                            n,
                        ) + device_names_from(document@, i as nat + 1, max as nat));
                    }
                },
                None => {
                    proof {
                        assert(string_views(names@) + Seq::empty() =~= string_views(names@));
                    }
                    return Ok(names);
                },
            }
            k = i;
        }
        proof {
            assert(string_views(names@) + Seq::empty() =~= string_views(names@));
        }
        Ok(names)
    }
}

/// Creates the parsers of the power and climate pages.
pub struct ParserAdapterBuilder;

impl ParserAdapterBuilder {
    /// The parser of the totals of the main power page.
    pub fn total_power() -> TotalPowerParserAdapter {
        TotalPowerParserAdapter
    }

    /// The parser of the generation sources of the main power page.
    pub fn generation_sources() -> GenerationSourcesParserAdapter {
        GenerationSourcesParserAdapter
    }

    /// The parser of a consumption page.
    pub fn consumption_page() -> ConsumptionPageParserAdapter {
        ConsumptionPageParserAdapter
    }

    /// The parser of a climate page.
    pub fn climate_page() -> ClimatePageParserAdapter {
        ClimatePageParserAdapter
    }
}

} // verus!
