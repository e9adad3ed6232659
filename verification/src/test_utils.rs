//! Builders of pages and configurations for exercising the collectors.
use crate::config::{Aiseg2Config, InfluxConfig};
use crate::aiseg::test_helpers::digit_or_zero;
use crate::text::{decimal_text, push_char, push_decimal};
use vstd::prelude::*;

verus! {

/// Builder for test AiSEG2 configurations.
#[derive(Debug)]
pub struct TestAiseg2ConfigBuilder {
    url: String,
    user: String,
    password: String,
}

impl TestAiseg2ConfigBuilder {
    /// The configuration the builder would build.
    pub closed spec fn spec_config(self) -> (Seq<char>, Seq<char>, Seq<char>) {
        (self.url@, self.user@, self.password@)
    }

    /// A builder with URL "http://test.local", user "test_user" and password "test_password".
    pub fn new() -> (r: Self)
        ensures
            r.spec_config() == ("http://test.local"@, "test_user"@, "test_password"@),
    {
        TestAiseg2ConfigBuilder {
            url: String::from_str("http://test.local"),
            user: String::from_str("test_user"),
            password: String::from_str("test_password"),
        }
    }

    /// Sets the URL.
    pub fn with_url(self, url: &str) -> (r: Self)
        ensures
            r.spec_config() == (url@, self.spec_config().1, self.spec_config().2),
    {
        TestAiseg2ConfigBuilder { url: String::from_str(url), ..self }
    }

    /// Sets the user name.
    pub fn with_user(self, user: &str) -> (r: Self)
        ensures
            r.spec_config() == (self.spec_config().0, user@, self.spec_config().2),
    {
        TestAiseg2ConfigBuilder { user: String::from_str(user), ..self }
    }

    /// Sets the password.
    pub fn with_password(self, password: &str) -> (r: Self)
        ensures
            r.spec_config() == (self.spec_config().0, self.spec_config().1, password@),
    {
        TestAiseg2ConfigBuilder { password: String::from_str(password), ..self }
    }

    /// Builds the configuration.
    pub fn build(self) -> (r: Aiseg2Config)
        ensures
            (r.url@, r.user@, r.password@) == self.spec_config(),
    {
        Aiseg2Config { url: self.url, user: self.user, password: self.password }
    }
}

/// Builder for test InfluxDB configurations.
#[derive(Debug)]
pub struct TestInfluxConfigBuilder {
    url: String,
    org: String,
    token: String,
    bucket: String,
}

impl TestInfluxConfigBuilder {
    /// The configuration the builder would build: URL, organization, token, bucket.
    pub closed spec fn spec_config(self) -> (Seq<char>, Seq<char>, Seq<char>, Seq<char>) {
        (self.url@, self.org@, self.token@, self.bucket@)
    }

    /// A builder with URL "http://localhost:8086", organization "test-org", token "test-token"
    /// and bucket "test-bucket".
    pub fn new() -> (r: Self)
        ensures
            r.spec_config() == ("http://localhost:8086"@, "test-org"@, "test-token"@, "test-bucket"@),
    {
        TestInfluxConfigBuilder {
            url: String::from_str("http://localhost:8086"),
            org: String::from_str("test-org"),
            token: String::from_str("test-token"),
            bucket: String::from_str("test-bucket"),
        }
    }

    /// Sets the URL.
    pub fn with_url(self, url: &str) -> (r: Self)
        ensures
            r.spec_config() == (url@, self.spec_config().1, self.spec_config().2, self.spec_config().3),
    {
        TestInfluxConfigBuilder { url: String::from_str(url), ..self }
    }

    /// Sets the organization.
    pub fn with_org(self, org: &str) -> (r: Self)
        ensures
            r.spec_config() == (self.spec_config().0, org@, self.spec_config().2, self.spec_config().3),
    {
        TestInfluxConfigBuilder { org: String::from_str(org), ..self }
    }

    /// Sets the token.
    pub fn with_token(self, token: &str) -> (r: Self)
        ensures
            r.spec_config() == (self.spec_config().0, self.spec_config().1, token@, self.spec_config().3),
    {
        TestInfluxConfigBuilder { token: String::from_str(token), ..self }
    }

    /// Sets the bucket.
    pub fn with_bucket(self, bucket: &str) -> (r: Self)
        ensures
            r.spec_config() == (self.spec_config().0, self.spec_config().1, self.spec_config().2, bucket@),
    {
        TestInfluxConfigBuilder { bucket: String::from_str(bucket), ..self }
    }

    /// Builds the configuration.
    pub fn build(self) -> (r: InfluxConfig)
        ensures
            (r.url@, r.org@, r.token@, r.bucket@) == self.spec_config(),
    {
        InfluxConfig { url: self.url, org: self.org, token: self.token, bucket: self.bucket }
    }
}

/// A default test AiSEG2 configuration.
pub fn test_aiseg2_config() -> (r: Aiseg2Config)
    ensures
        r.url@ == "http://test.local"@,
        r.user@ == "test_user"@,
        r.password@ == "test_password"@,
{
    TestAiseg2ConfigBuilder::new().build()
}

/// A test AiSEG2 configuration with the given URL.
pub fn test_aiseg2_config_with_url(url: &str) -> (r: Aiseg2Config)
    ensures
        r.url@ == url@,
        r.user@ == "test_user"@,
        r.password@ == "test_password"@,
{
    TestAiseg2ConfigBuilder::new().with_url(url).build()
}

/// A default test InfluxDB configuration.
pub fn test_influx_config() -> (r: InfluxConfig)
    ensures
        r.url@ == "http://localhost:8086"@,
        r.org@ == "test-org"@,
        r.token@ == "test-token"@,
        r.bucket@ == "test-bucket"@,
{
    TestInfluxConfigBuilder::new().build()
}

/// A test InfluxDB configuration with the given URL.
pub fn test_influx_config_with_url(url: &str) -> (r: InfluxConfig)
    ensures
        r.url@ == url@,
        r.org@ == "test-org"@,
        r.token@ == "test-token"@,
        r.bucket@ == "test-bucket"@,
{
    TestInfluxConfigBuilder::new().with_url(url).build()
}

/// The content that `HtmlTestBuilder::build` makes of its elements: each as a `div` with the
/// given id and value (or, for the id "custom", the value itself), followed by a line break.
pub open spec fn test_elements_html(elements: Seq<(String, String)>) -> Seq<char>
    decreases elements.len(),
{
    if elements.len() == 0 {
        Seq::empty()
    } else {
        let (id, value) = elements.last();
        test_elements_html(elements.drop_last()) + if id@ == "custom"@ {
            value@
        } else {
            "<div id=\""@ + id@ + "\">"@ + value@ + "</div>"@
        } + "\n"@
    }
}

/// Builder for HTML test documents.
#[derive(Debug)]
pub struct HtmlTestBuilder {
    elements: Vec<(String, String)>,
    wrapper_tag: String,
}

impl HtmlTestBuilder {
    /// The elements added so far.
    pub closed spec fn spec_elements(self) -> Seq<(String, String)> {
        self.elements@
    }

    /// The tag wrapping the elements.
    pub closed spec fn spec_wrapper(self) -> Seq<char> {
        self.wrapper_tag@
    }

    /// A builder with no elements, wrapping in `body`.
    pub fn new() -> (r: Self)
        ensures
            r.spec_elements().len() == 0,
            r.spec_wrapper() == "body"@,
    {
        HtmlTestBuilder { elements: Vec::new(), wrapper_tag: String::from_str("body") }
    }

    /// Adds a `div` with the given id and value.
    pub fn add_element(self, id: &str, value: &str) -> (r: Self)
        ensures
            r.spec_wrapper() == self.spec_wrapper(),
            r.spec_elements().len() == self.spec_elements().len() + 1,
            r.spec_elements().drop_last() == self.spec_elements(),
            r.spec_elements().last().0@ == id@,
            r.spec_elements().last().1@ == value@,
    {
        let mut elements = self.elements;
        elements.push((String::from_str(id), String::from_str(value)));
        HtmlTestBuilder { elements, wrapper_tag: self.wrapper_tag }
    }

    /// Adds a `div` with the given id, class and value.
    pub fn add_element_with_class(self, id: &str, class: &str, value: &str) -> (r: Self)
        ensures
            r.spec_wrapper() == self.spec_wrapper(),
            r.spec_elements().len() == self.spec_elements().len() + 1,
            r.spec_elements().drop_last() == self.spec_elements(),
            r.spec_elements().last().0@ == "custom"@,
            r.spec_elements().last().1@ == "<div id=\""@ + id@ + "\" class=\""@ + class@ + "\">"@ + value@ + "</div>"@,
    {
        let mut element = String::from_str("<div id=\"");
        element.append(id);
        element.append("\" class=\"");
        element.append(class);
        element.append("\">");
        element.append(value);
        element.append("</div>");
        let mut elements = self.elements;
        elements.push((String::from_str("custom"), element));
        HtmlTestBuilder { elements, wrapper_tag: self.wrapper_tag }
    }

    /// Sets the wrapper tag.
    pub fn with_wrapper(self, tag: &str) -> (r: Self)
        ensures
            r.spec_elements() == self.spec_elements(),
            r.spec_wrapper() == tag@,
    {
        HtmlTestBuilder { elements: self.elements, wrapper_tag: String::from_str(tag) }
    }

    /// Builds the HTML text: the elements inside the wrapper tag, inside `html`.
    pub fn build(self) -> (r: String)
        ensures
            r@ == "<html><"@ + self.spec_wrapper() + ">"@ + test_elements_html(self.spec_elements()) + "</"@
                + self.spec_wrapper() + "></html>"@,
    {
        let mut content = String::new();
        let mut i: usize = 0;
        let custom = String::from_str("custom");
        while i < self.elements.len()
            invariant
                i <= self.elements@.len(),
                custom@ == "custom"@,
                content@ == test_elements_html(self.elements@.take(i as int)),
            decreases self.elements@.len() - i,
        {
            let ghost before = content@;
            let (id, value) = &self.elements[i];
            if *id == custom {
                content.append(value.as_str());
            } else {
                content.append("<div id=\"");
                content.append(id.as_str());
                content.append("\">");
                content.append(value.as_str());
                content.append("</div>");
            }
            content.append("\n");
            proof {
                assert(self.elements@.take(i + 1).drop_last() =~= self.elements@.take(i as int));
                assert(content@ =~= test_elements_html(self.elements@.take(i + 1)));
            }
            i += 1;
        }
        proof {
            assert(self.elements@.take(self.elements@.len() as int) =~= self.elements@);
        }
        let mut r = String::from_str("<html><");
        r.append(self.wrapper_tag.as_str());
        r.append(">");
        r.append(content.as_str());
        r.append("</");
        r.append(self.wrapper_tag.as_str());
        r.append("></html>");
        r
    }
}

/// Builder for generation details HTML with several sources.
pub struct GenerationDetailsBuilder {
    sources: Vec<(usize, String, String)>,
}

/// The title and capacity elements of generation source `index`, as the builder lays them out.
pub open spec fn built_generation_source_html(index: nat, title: Seq<char>, capacity: Seq<char>) -> Seq<char> {
    "<div id=\"g_d_"@ + decimal_text(index) + "_title\"><span>"@ + title
        + "</span></div>\n                   <div id=\"g_d_"@ + decimal_text(index) + "_capacity\"><span>"@ + capacity
        + "</span></div>"@
}

/// The elements of the generation sources, in order, as the builder lays them out.
pub open spec fn built_generation_sources_html(sources: Seq<(usize, String, String)>) -> Seq<char>
    decreases sources.len(),
{
    if sources.len() == 0 {
        Seq::empty()
    } else {
        built_generation_sources_html(sources.drop_last()) + built_generation_source_html(
            sources.last().0 as nat,
            sources.last().1@,
            sources.last().2@,
        )
    }
}

impl GenerationDetailsBuilder {
    /// The sources added so far.
    pub closed spec fn spec_sources(self) -> Seq<(usize, String, String)> {
        self.sources@
    }

    /// A builder with no sources.
    pub fn new() -> (r: Self)
        ensures
            r.spec_sources().len() == 0,
    {
        GenerationDetailsBuilder { sources: Vec::new() }
    }

    /// Adds a generation source.
    pub fn add_source(self, index: usize, title: &str, capacity: &str) -> (r: Self)
        ensures
            r.spec_sources().len() == self.spec_sources().len() + 1,
            r.spec_sources().drop_last() == self.spec_sources(),
            r.spec_sources().last().0 == index,
            r.spec_sources().last().1@ == title@,
            r.spec_sources().last().2@ == capacity@,
    {
        let mut sources = self.sources;
        sources.push((index, String::from_str(title), String::from_str(capacity)));
        GenerationDetailsBuilder { sources }
    }

    /// Builds the HTML text.
    pub fn build(self) -> (r: String)
        ensures
            r@ == "<html><body>"@ + built_generation_sources_html(self.spec_sources()) + "</body></html>"@,
    {
        let mut html = String::from_str("<html><body>");
        let mut i: usize = 0;
        while i < self.sources.len()
            invariant
                i <= self.sources@.len(),
                html@ == "<html><body>"@ + built_generation_sources_html(self.sources@.take(i as int)),
            decreases self.sources@.len() - i,
        {
            let ghost before = html@;
            let (index, title, capacity) = &self.sources[i];
            html.append("<div id=\"g_d_");
            push_decimal(&mut html, *index as u64);
            html.append("_title\"><span>");
            html.append(title.as_str());
            html.append("</span></div>\n                   <div id=\"g_d_");
            push_decimal(&mut html, *index as u64);
            html.append("_capacity\"><span>");
            html.append(capacity.as_str());
            html.append("</span></div>");
            proof {
                assert(self.sources@.take(i + 1).drop_last() =~= self.sources@.take(i as int));
                assert(html@ =~= "<html><body>"@ + built_generation_sources_html(self.sources@.take(i + 1)));
            }
            i += 1;
        }
        proof {
            assert(self.sources@.take(self.sources@.len() as int) =~= self.sources@);
        }
        html.append("</body></html>");
        html
    }
}

/// Builder for consumption devices HTML.
pub struct ConsumptionDevicesBuilder {
    devices: Vec<(usize, String, String)>,
}

/// The stage element of consumption device `index`, as the builder lays it out.
pub open spec fn built_consumption_device_html(index: nat, device: Seq<char>, value: Seq<char>) -> Seq<char> {
    "<div id=\"stage_"@ + decimal_text(index) + "\">\n                    <div class=\"c_device\"><span>"@ + device
        + "</span></div>\n                    <div class=\"c_value\"><span>"@ + value
        + "</span></div>\n                </div>"@
}

/// The stage elements of the consumption devices, in order, as the builder lays them out.
pub open spec fn built_consumption_devices_html(devices: Seq<(usize, String, String)>) -> Seq<char>
    decreases devices.len(),
{
    if devices.len() == 0 {
        Seq::empty()
    } else {
        built_consumption_devices_html(devices.drop_last()) + built_consumption_device_html(
            devices.last().0 as nat,
            devices.last().1@,
            devices.last().2@,
        )
    }
}

impl ConsumptionDevicesBuilder {
    /// The devices added so far.
    pub closed spec fn spec_devices(self) -> Seq<(usize, String, String)> {
        self.devices@
    }

    /// A builder with no devices.
    pub fn new() -> (r: Self)
        ensures
            r.spec_devices().len() == 0,
    {
        ConsumptionDevicesBuilder { devices: Vec::new() }
    }

    /// Adds a consumption device.
    pub fn add_device(self, index: usize, device: &str, value: &str) -> (r: Self)
        ensures
            r.spec_devices().len() == self.spec_devices().len() + 1,
            r.spec_devices().drop_last() == self.spec_devices(),
            r.spec_devices().last().0 == index,
            r.spec_devices().last().1@ == device@,
            r.spec_devices().last().2@ == value@,
    {
        let mut devices = self.devices;
        devices.push((index, String::from_str(device), String::from_str(value)));
        ConsumptionDevicesBuilder { devices }
    }

    /// Builds the HTML text.
    pub fn build(self) -> (r: String)
        ensures
            r@ == "<html><body>"@ + built_consumption_devices_html(self.spec_devices()) + "</body></html>"@,
    {
        let mut html = String::from_str("<html><body>");
        let mut i: usize = 0;
        while i < self.devices.len()
            invariant
                i <= self.devices@.len(),
                html@ == "<html><body>"@ + built_consumption_devices_html(self.devices@.take(i as int)),
            decreases self.devices@.len() - i,
        {
            let ghost before = html@;
            let (index, device, value) = &self.devices[i];
            html.append("<div id=\"stage_");
            push_decimal(&mut html, *index as u64);
            html.append("\">\n                    <div class=\"c_device\"><span>");
            html.append(device.as_str());
            html.append("</span></div>\n                    <div class=\"c_value\"><span>");
            html.append(value.as_str());
            html.append("</span></div>\n                </div>");
            proof {
                assert(self.devices@.take(i + 1).drop_last() =~= self.devices@.take(i as int));
                assert(html@ =~= "<html><body>"@ + built_consumption_devices_html(self.devices@.take(i + 1)));
            }
            i += 1;
        }
        proof {
            assert(self.devices@.take(self.devices@.len() as int) =~= self.devices@);
        }
        html.append("</body></html>");
        html
    }
}

/// One digit span of a climate reading, as the builder lays it out.
pub open spec fn built_digit_span_html(kind: Seq<char>, base: nat, position: Seq<char>, digit: char) -> Seq<char> {
    "\n                        <span id=\""@ + kind + decimal_text(base) + "_"@ + position + "\" class=\"num no"@
        + seq![digit] + "\"></span>"@
}

/// The block of climate location number `base`, as the builder lays it out.
pub open spec fn built_climate_location_html(base: nat, name: Seq<char>, temperature: Seq<char>, humidity: Seq<char>) -> Seq<
    char,
> {
    "\n                <div id=\"base"@ + decimal_text(base) + "_1\">\n                    <div class=\"txt_name\">"@ + name
        + "</div>\n                    <div class=\"num_wrapper\">"@
        + built_digit_span_html("num_ond_"@, base, "1"@, digit_or_zero(temperature, 0))
        + built_digit_span_html("num_ond_"@, base, "2"@, digit_or_zero(temperature, 1))
        + built_digit_span_html("num_ond_"@, base, "3"@, digit_or_zero(temperature, 2))
        + built_digit_span_html("num_shitudo_"@, base, "1"@, digit_or_zero(humidity, 0))
        + built_digit_span_html("num_shitudo_"@, base, "2"@, digit_or_zero(humidity, 1))
        + built_digit_span_html("num_shitudo_"@, base, "3"@, digit_or_zero(humidity, 2))
        + "\n                    </div>\n                </div>"@
}

/// The blocks of the climate locations, numbered from 1 in order, as the builder lays them out.
pub open spec fn built_climate_locations_html(locations: Seq<(String, String, String)>) -> Seq<char>
    decreases locations.len(),
{
    if locations.len() == 0 {
        Seq::empty()
    } else {
        built_climate_locations_html(locations.drop_last()) + built_climate_location_html(
            locations.len(),
            locations.last().0@,
            locations.last().1@,
            locations.last().2@,
        )
    }
}

/// The `k`-th character of `digits`, or `0` past its end.
fn nth_digit_or_zero(digits: &str, k: usize) -> (r: char)
    ensures
        r == digit_or_zero(digits@, k as int),
{
    if k < digits.unicode_len() {
        digits.get_char(k)
    } else {
        '0'
    }
}

/// Appends one digit span of a climate reading.
fn push_built_digit_span(s: &mut String, kind: &str, base: usize, position: &str, digit: char)
    ensures
        final(s)@ == old(s)@ + built_digit_span_html(kind@, base as nat, position@, digit),
{
    let ghost before = s@;
    s.append("\n                        <span id=\"");
    s.append(kind);
    push_decimal(s, base as u64);
    s.append("_");
    s.append(position);
    s.append("\" class=\"num no");
    push_char(s, digit);
    s.append("\"></span>");
    proof {
        assert(s@ =~= before + built_digit_span_html(kind@, base as nat, position@, digit));
    }
}

/// Appends the block of a climate location, as the builder lays it out.
fn push_built_climate_location(html: &mut String, base: usize, name: &str, temperature: &str, humidity: &str)
    ensures
        final(html)@ == old(html)@ + built_climate_location_html(base as nat, name@, temperature@, humidity@),
{
    let ghost before = html@;
    html.append("\n                <div id=\"base");
    push_decimal(html, base as u64);
    html.append("_1\">\n                    <div class=\"txt_name\">");
    html.append(name);
    html.append("</div>\n                    <div class=\"num_wrapper\">");
    push_built_digit_span(html, "num_ond_", base, "1", nth_digit_or_zero(temperature, 0));
    push_built_digit_span(html, "num_ond_", base, "2", nth_digit_or_zero(temperature, 1));
    push_built_digit_span(html, "num_ond_", base, "3", nth_digit_or_zero(temperature, 2));
    push_built_digit_span(html, "num_shitudo_", base, "1", nth_digit_or_zero(humidity, 0));
    push_built_digit_span(html, "num_shitudo_", base, "2", nth_digit_or_zero(humidity, 1));
    push_built_digit_span(html, "num_shitudo_", base, "3", nth_digit_or_zero(humidity, 2));
    html.append("\n                    </div>\n                </div>");
    proof {
        assert(html@ =~= before + built_climate_location_html(base as nat, name@, temperature@, humidity@));
    }
}

/// Builder for climate HTML with digit-based display.
pub struct ClimateHtmlBuilder {
    locations: Vec<(String, String, String)>,
}

impl ClimateHtmlBuilder {
    /// The locations added so far.
    pub closed spec fn spec_locations(self) -> Seq<(String, String, String)> {
        self.locations@
    }

    /// A builder with no locations.
    pub fn new() -> (r: Self)
        ensures
            r.spec_locations().len() == 0,
    {
        ClimateHtmlBuilder { locations: Vec::new() }
    }

    /// Adds a location with the digits of its temperature and humidity.
    pub fn add_location(self, name: &str, temp_digits: &str, humidity_digits: &str) -> (r: Self)
        ensures
            r.spec_locations().len() == self.spec_locations().len() + 1,
            r.spec_locations().drop_last() == self.spec_locations(),
            r.spec_locations().last().0@ == name@,
            r.spec_locations().last().1@ == temp_digits@,
            r.spec_locations().last().2@ == humidity_digits@,
    {
        let mut locations = self.locations;
        locations.push((String::from_str(name), String::from_str(temp_digits), String::from_str(humidity_digits)));
        ClimateHtmlBuilder { locations }
    }

    /// Builds the HTML text.
    pub fn build(self) -> (r: String)
        ensures
            r@ == "<html><body>"@ + built_climate_locations_html(self.spec_locations()) + "</body></html>"@,
    {
        let mut html = String::from_str("<html><body>");
        let mut i: usize = 0;
        while i < self.locations.len()
            invariant
                i <= self.locations@.len(),
                html@ == "<html><body>"@ + built_climate_locations_html(self.locations@.take(i as int)),
            decreases self.locations@.len() - i,
        {
            let ghost before = html@;
            let (name, temperature, humidity) = &self.locations[i];
            push_built_climate_location(&mut html, i + 1, name.as_str(), temperature.as_str(), humidity.as_str());
            proof {
                assert(self.locations@.take(i + 1).drop_last() =~= self.locations@.take(i as int));
                assert(html@ =~= "<html><body>"@ + built_climate_locations_html(self.locations@.take(i + 1)));
            }
            i += 1;
        }
        proof {
            assert(self.locations@.take(self.locations@.len() as int) =~= self.locations@);
        }
        html.append("</body></html>");
        html
    }
}

} // verus!
