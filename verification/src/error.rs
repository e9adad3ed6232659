//! Error types of the forwarder, with the messages they display.
use crate::text::{concat2, concat3, concat4, decimal_text, push_decimal};
use vstd::prelude::*;
use vstd::std_specs::convert::FromSpecImpl;

verus! {

#[verifier::external_type_specification]
#[verifier::external_body]
pub struct ExInfluxRequestError(influxdb2::RequestError);

/// The message of an `influxdb2::RequestError`, through its `Display` impl.
/// Nothing is stated of the text: it depends on fields of the error that are opaque here.
#[verifier::external_body]
fn influx_error_text(err: &influxdb2::RequestError) -> String {
    err.to_string()
}

/// Top-level error type that encompasses all application errors.
#[derive(Debug)]
pub enum Error {
    /// Configuration-related errors
    Config(ConfigError),
    /// AiSEG2 communication and parsing errors
    Aiseg(AisegError),
    /// Metric collection errors
    Collector(CollectorError),
    /// InfluxDB storage errors
    Storage(StorageError),
    /// Generic errors that don't fit other categories, by their message
    Other(String),
}

/// Configuration-related errors.
#[derive(Debug, Clone, PartialEq, Eq)]
pub enum ConfigError {
    /// Environment variable parsing failed
    EnvParse(String),
    /// Required configuration value is missing
    Missing(String),
    /// Configuration value is invalid
    Invalid { field: String, message: String },
}

/// AiSEG2 communication and parsing errors.
#[derive(Debug)]
pub enum AisegError {
    /// HTTP request failed, with the HTTP client's message
    Http(String),
    /// Digest auth request failed
    DigestAuth(String),
    /// Authentication failed (401)
    AuthFailed,
    /// Server returned an error status
    ServerError { status: u16, message: String },
    /// HTML parsing failed
    Parse(ParseError),
    /// Network timeout
    Timeout(u64),
    /// Rate limit exceeded
    RateLimit(u64),
}

/// HTML parsing errors.
#[derive(Debug, Clone, PartialEq, Eq)]
pub enum ParseError {
    /// Element not found in HTML
    ElementNotFound { selector: String },
    /// Invalid CSS selector
    InvalidSelector { selector: String, message: String },
    /// Failed to parse numeric value
    NumberParse { text: String, message: String },
    /// Failed to parse date/time
    DateTimeParse { text: String, message: String },
    /// Expected element has no content
    EmptyElement { selector: String },
    /// Unexpected HTML structure
    UnexpectedStructure(String),
}

/// Metric collection errors.
#[derive(Debug)]
pub enum CollectorError {
    /// Collector task timed out
    Timeout { name: String, timeout: u64 },
    /// Circuit breaker is open
    CircuitOpen { name: String },
    /// Data source error
    Source(AisegError),
    /// Data validation failed
    ValidationFailed(String),
    /// Collector is temporarily unavailable
    Unavailable { name: String },
}

/// InfluxDB storage errors.
#[derive(Debug)]
pub enum StorageError {
    /// InfluxDB client error
    Client(influxdb2::RequestError),
    /// Authentication failed
    AuthFailed,
    /// Write operation failed
    WriteFailed { count: usize, message: String },
    /// Connection failed
    ConnectionFailed { url: String },
    /// Invalid data point
    InvalidDataPoint(String),
}

/// The message of a configuration error.
pub open spec fn config_error_text(e: ConfigError) -> Seq<char> {
    match e {
        ConfigError::EnvParse(s) => "failed to parse environment variables: "@ + s@,
        ConfigError::Missing(s) => "missing required configuration: "@ + s@,
        ConfigError::Invalid { field, message } => "invalid configuration value for "@ + field@ + ": "@ + message@,
    }
}

/// The message of a parse error.
pub open spec fn parse_error_text(e: ParseError) -> Seq<char> {
    match e {
        ParseError::ElementNotFound { selector } => "element not found: "@ + selector@,
        ParseError::InvalidSelector { selector, message } => "invalid selector '"@ + selector@ + "': "@ + message@,
        ParseError::NumberParse { text, message } => "failed to parse number from '"@ + text@ + "': "@ + message@,
        ParseError::DateTimeParse { text, message } => "failed to parse date/time from '"@ + text@ + "': "@
            + message@,
        ParseError::EmptyElement { selector } => "element '"@ + selector@ + "' has no content"@,
        ParseError::UnexpectedStructure(s) => "unexpected HTML structure: "@ + s@,
    }
}

/// The message of an AiSEG2 error.
pub open spec fn aiseg_error_text(e: AisegError) -> Seq<char> {
    match e {
        AisegError::Http(s) => "HTTP request failed: "@ + s@,
        AisegError::DigestAuth(s) => "Digest auth request failed: "@ + s@,
        AisegError::AuthFailed => "authentication failed: invalid credentials"@,
        AisegError::ServerError { status, message } => "server error (status "@ + decimal_text(status as nat)
            + "): "@ + message@,
        AisegError::Parse(_) => "HTML parsing error"@,
        AisegError::Timeout(n) => "request timed out after "@ + decimal_text(n as nat) + " seconds"@,
        AisegError::RateLimit(n) => "rate limit exceeded, retry after "@ + decimal_text(n as nat) + " seconds"@,
    }
}

/// The message of a collector error.
pub open spec fn collector_error_text(e: CollectorError) -> Seq<char> {
    match e {
        CollectorError::Timeout { name, timeout } => "collector '"@ + name@ + "' timed out after "@ + decimal_text(
            timeout as nat,
        ) + " seconds"@,
        CollectorError::CircuitOpen { name } => "circuit breaker open for collector '"@ + name@ + "'"@,
        CollectorError::Source(_) => "failed to collect from source"@,
        CollectorError::ValidationFailed(s) => "invalid metric data: "@ + s@,
        CollectorError::Unavailable { name } => "collector '"@ + name@ + "' is temporarily unavailable"@,
    }
}

/// The message of a storage error, where it does not come from an outside error.
pub open spec fn storage_error_text(e: StorageError) -> Seq<char> {
    match e {
        StorageError::Client(_) => "InfluxDB error: "@,
        StorageError::AuthFailed => "InfluxDB authentication failed"@,
        StorageError::WriteFailed { count, message } => "failed to write "@ + decimal_text(count as nat)
            + " data points: "@ + message@,
        StorageError::ConnectionFailed { url } => "failed to connect to InfluxDB at "@ + url@,
        StorageError::InvalidDataPoint(s) => "invalid data point: "@ + s@,
    }
}

/// The message of a top-level error, where it does not come from an outside error.
pub open spec fn error_text(e: Error) -> Seq<char> {
    match e {
        Error::Config(_) => "configuration error"@,
        Error::Aiseg(_) => "AiSEG2 error"@,
        Error::Collector(_) => "collector error"@,
        Error::Storage(_) => "storage error"@,
        Error::Other(s) => s@,
    }
}

impl Error {
    /// The message displayed for this error.
    pub fn to_string(&self) -> (r: String)
        ensures
            r@ == error_text(*self),
    {
        match self {
            Error::Config(_) => String::from_str("configuration error"),
            Error::Aiseg(_) => String::from_str("AiSEG2 error"),
            Error::Collector(_) => String::from_str("collector error"),
            Error::Storage(_) => String::from_str("storage error"),
            Error::Other(s) => s.clone(),
        }
    }
}

impl ConfigError {
    /// Creates a new environment parse error from the parser's message.
    pub fn env_parse(err: &str) -> (r: Self)
        ensures
            r matches ConfigError::EnvParse(s) && s@ == err@,
    {
        ConfigError::EnvParse(String::from_str(err))
    }

    /// Creates a new missing configuration error.
    pub fn missing(field: &str) -> (r: Self)
        ensures
            r matches ConfigError::Missing(f) && f@ == field@,
    {
        ConfigError::Missing(String::from_str(field))
    }

    /// Creates a new invalid configuration error.
    pub fn invalid(field: &str, message: &str) -> (r: Self)
        ensures
            r matches ConfigError::Invalid { field: f, message: m } && f@ == field@ && m@ == message@,
    {
        ConfigError::Invalid { field: String::from_str(field), message: String::from_str(message) }
    }

    /// The message displayed for this error.
    pub fn to_string(&self) -> (r: String)
        ensures
            r@ == config_error_text(*self),
    {
        match self {
            ConfigError::EnvParse(s) => concat2("failed to parse environment variables: ", s.as_str()),
            ConfigError::Missing(s) => concat2("missing required configuration: ", s.as_str()),
            ConfigError::Invalid { field, message } => concat4(
                "invalid configuration value for ",
                field.as_str(),
                ": ",
                message.as_str(),
            ),
        }
    }
}

impl AisegError {
    /// Creates an error from an HTTP status code and response body: 401 is a failed
    /// authentication, 429 a rate limit (retry after sixty seconds), anything else a server error.
    pub fn server_error(status: u16, body: String) -> (r: Self)
        ensures
            status == 401 ==> r is AuthFailed,
            status == 429 ==> r == AisegError::RateLimit(60),
            status != 401 && status != 429 ==> (r matches AisegError::ServerError { status: s, message: m } && s
                == status && m@ == body@),
    {
        if status == 401 {
            AisegError::AuthFailed
        } else if status == 429 {
            AisegError::RateLimit(60)
        } else {
            AisegError::ServerError { status, message: body }
        }
    }

    /// The message displayed for this error.
    pub fn to_string(&self) -> (r: String)
        ensures
            r@ == aiseg_error_text(*self),
    {
        match self {
            AisegError::Http(s) => concat2("HTTP request failed: ", s.as_str()),
            AisegError::DigestAuth(s) => concat2("Digest auth request failed: ", s.as_str()),
            AisegError::AuthFailed => String::from_str("authentication failed: invalid credentials"),
            AisegError::ServerError { status, message } => {
                let mut r = String::from_str("server error (status ");
                push_decimal(&mut r, *status as u64);
                r.append("): ");
                r.append(message.as_str());
                r
            },
            AisegError::Parse(_) => String::from_str("HTML parsing error"),
            AisegError::Timeout(n) => {
                let mut r = String::from_str("request timed out after ");
                push_decimal(&mut r, *n);
                r.append(" seconds");
                r
            },
            AisegError::RateLimit(n) => {
                let mut r = String::from_str("rate limit exceeded, retry after ");
                push_decimal(&mut r, *n);
                r.append(" seconds");
                r
            },
        }
    }
}

impl ParseError {
    /// Creates an element not found error.
    pub fn element_not_found(selector: &str) -> (r: Self)
        ensures
            r matches ParseError::ElementNotFound { selector: s } && s@ == selector@,
    {
        ParseError::ElementNotFound { selector: String::from_str(selector) }
    }

    /// Creates an invalid selector error from the selector and the parser's message.
    pub fn invalid_selector(selector: &str, err: &str) -> (r: Self)
        ensures
            r matches ParseError::InvalidSelector { selector: s, message: m } && s@ == selector@ && m@ == err@,
    {
        ParseError::InvalidSelector { selector: String::from_str(selector), message: String::from_str(err) }
    }

    /// Creates a number parse error from the text and the parser's message.
    pub fn number_parse(text: &str, err: &str) -> (r: Self)
        ensures
            r matches ParseError::NumberParse { text: t, message: m } && t@ == text@ && m@ == err@,
    {
        ParseError::NumberParse { text: String::from_str(text), message: String::from_str(err) }
    }

    /// Creates a date/time parse error from the text and the parser's message.
    pub fn datetime_parse(text: &str, err: &str) -> (r: Self)
        ensures
            r matches ParseError::DateTimeParse { text: t, message: m } && t@ == text@ && m@ == err@,
    {
        ParseError::DateTimeParse { text: String::from_str(text), message: String::from_str(err) }
    }

    /// The message displayed for this error.
    pub fn to_string(&self) -> (r: String)
        ensures
            r@ == parse_error_text(*self),
    {
        match self {
            ParseError::ElementNotFound { selector } => concat2("element not found: ", selector.as_str()),
            ParseError::InvalidSelector { selector, message } => concat4(
                "invalid selector '",
                selector.as_str(),
                "': ",
                message.as_str(),
            ),
            ParseError::NumberParse { text, message } => concat4(
                "failed to parse number from '",
                text.as_str(),
                "': ",
                message.as_str(),
            ),
            ParseError::DateTimeParse { text, message } => concat4(
                "failed to parse date/time from '",
                text.as_str(),
                "': ",
                message.as_str(),
            ),
            ParseError::EmptyElement { selector } => concat3("element '", selector.as_str(), "' has no content"),
            ParseError::UnexpectedStructure(s) => concat2("unexpected HTML structure: ", s.as_str()),
        }
    }
}

impl CollectorError {
    /// Creates a timeout error.
    pub fn timeout(name: &str, timeout: u64) -> (r: Self)
        ensures
            r matches CollectorError::Timeout { name: n, timeout: t } && n@ == name@ && t == timeout,
    {
        CollectorError::Timeout { name: String::from_str(name), timeout }
    }

    /// Creates a circuit open error.
    pub fn circuit_open(name: &str) -> (r: Self)
        ensures
            r matches CollectorError::CircuitOpen { name: n } && n@ == name@,
    {
        CollectorError::CircuitOpen { name: String::from_str(name) }
    }

    /// Creates an unavailable error.
    pub fn unavailable(name: &str) -> (r: Self)
        ensures
            r matches CollectorError::Unavailable { name: n } && n@ == name@,
    {
        CollectorError::Unavailable { name: String::from_str(name) }
    }

    /// The message displayed for this error.
    pub fn to_string(&self) -> (r: String)
        ensures
            r@ == collector_error_text(*self),
    {
        match self {
            CollectorError::Timeout { name, timeout } => {
                let mut r = concat3("collector '", name.as_str(), "' timed out after ");
                push_decimal(&mut r, *timeout);
                r.append(" seconds");
                r
            },
            CollectorError::CircuitOpen { name } => concat3("circuit breaker open for collector '", name.as_str(), "'"),
            CollectorError::Source(_) => String::from_str("failed to collect from source"),
            CollectorError::ValidationFailed(s) => concat2("invalid metric data: ", s.as_str()),
            CollectorError::Unavailable { name } => concat3("collector '", name.as_str(), "' is temporarily unavailable"),
        }
    }
}

impl StorageError {
    /// Creates a write failed error from the number of points and the writer's message.
    pub fn write_failed(count: usize, err: &str) -> (r: Self)
        ensures
            r matches StorageError::WriteFailed { count: c, message: m } && c == count && m@ == err@,
    {
        StorageError::WriteFailed { count, message: String::from_str(err) }
    }

    /// Creates a connection failed error.
    pub fn connection_failed(url: &str) -> (r: Self)
        ensures
            r matches StorageError::ConnectionFailed { url: u } && u@ == url@,
    {
        StorageError::ConnectionFailed { url: String::from_str(url) }
    }

    /// The message displayed for this error. For `Client`, the message of the wrapped error follows
    /// the stated prefix.
    pub fn to_string(&self) -> (r: String)
        ensures
            !(self is Client) ==> r@ == storage_error_text(*self),
            self is Client ==> storage_error_text(*self).is_prefix_of(r@),
    {
        match self {
            StorageError::Client(e) => {
                let t = influx_error_text(e);
                let r = concat2("InfluxDB error: ", t.as_str());
                proof {
                    assert(r@.subrange(0, storage_error_text(*self).len() as int) =~= storage_error_text(*self));
                }
                r
            },
            StorageError::AuthFailed => String::from_str("InfluxDB authentication failed"),
            StorageError::WriteFailed { count, message } => {
                let mut r = String::from_str("failed to write ");
                push_decimal(&mut r, *count as u64);
                r.append(" data points: ");
                r.append(message.as_str());
                r
            },
            StorageError::ConnectionFailed { url } => concat2("failed to connect to InfluxDB at ", url.as_str()),
            StorageError::InvalidDataPoint(s) => concat2("invalid data point: ", s.as_str()),
        }
    }
}

impl From<ConfigError> for Error {
    fn from(err: ConfigError) -> (r: Self) {
        Error::Config(err)
    }
}

impl FromSpecImpl<ConfigError> for Error {
    open spec fn obeys_from_spec() -> bool {
        true
    }

    open spec fn from_spec(v: ConfigError) -> Error {
        Error::Config(v)
    }
}

impl From<AisegError> for Error {
    fn from(err: AisegError) -> (r: Self) {
        Error::Aiseg(err)
    }
}

impl FromSpecImpl<AisegError> for Error {
    open spec fn obeys_from_spec() -> bool {
        true
    }

    open spec fn from_spec(v: AisegError) -> Error {
        Error::Aiseg(v)
    }
}

impl From<CollectorError> for Error {
    fn from(err: CollectorError) -> (r: Self) {
        Error::Collector(err)
    }
}

impl FromSpecImpl<CollectorError> for Error {
    open spec fn obeys_from_spec() -> bool {
        true
    }

    open spec fn from_spec(v: CollectorError) -> Error {
        Error::Collector(v)
    }
}

impl From<StorageError> for Error {
    fn from(err: StorageError) -> (r: Self) {
        Error::Storage(err)
    }
}

impl FromSpecImpl<StorageError> for Error {
    open spec fn obeys_from_spec() -> bool {
        true
    }

    open spec fn from_spec(v: StorageError) -> Error {
        Error::Storage(v)
    }
}

impl From<ParseError> for AisegError {
    fn from(err: ParseError) -> (r: Self) {
        AisegError::Parse(err)
    }
}

impl FromSpecImpl<ParseError> for AisegError {
    open spec fn obeys_from_spec() -> bool {
        true
    }

    open spec fn from_spec(v: ParseError) -> AisegError {
        AisegError::Parse(v)
    }
}

impl From<AisegError> for CollectorError {
    fn from(err: AisegError) -> (r: Self) {
        CollectorError::Source(err)
    }
}

impl FromSpecImpl<AisegError> for CollectorError {
    open spec fn obeys_from_spec() -> bool {
        true
    }

    open spec fn from_spec(v: AisegError) -> CollectorError {
        CollectorError::Source(v)
    }
}

} // verus!
