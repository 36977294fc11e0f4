use vstd::prelude::*;
use vstd::utf8::{decode_utf8, valid_utf8};

verus! {

/// Failure of the HTTP transport (hyper), at the head or while reading the body.
#[verifier::external_type_specification]
#[verifier::external_body]
pub struct ExHyperError(hyper::Error);

/// A header value that is not visible ASCII (http).
#[verifier::external_type_specification]
#[verifier::external_body]
pub struct ExToStrError(http::header::ToStrError);

/// A failure to build an outbound request (http).
#[verifier::external_type_specification]
#[verifier::external_body]
pub struct ExHttpError(http::Error);

/// A JSON (de)serialisation failure (serde_json).
#[verifier::external_type_specification]
#[verifier::external_body]
pub struct ExJsonError(serde_json::Error);

/// An XML deserialisation failure (serde-xml-rs).
#[verifier::external_type_specification]
#[verifier::external_body]
pub struct ExSerdeXmlError(serde_xml_rs::Error);

/// A failure to build an XML element tree (RustyXML).
#[verifier::external_type_specification]
#[verifier::external_body]
pub struct ExXmlBuilderError(xml::BuilderError);

/// A malformed URL (url).
#[verifier::external_type_specification]
#[verifier::external_body]
pub struct ExUrlParseError(url::ParseError);

/// A malformed UUID (uuid).
#[verifier::external_type_specification]
#[verifier::external_body]
pub struct ExUuidParseError(uuid::parser::ParseError);

/// A malformed date or time (chrono).
#[verifier::external_type_specification]
#[verifier::external_body]
pub struct ExChronoParseError(chrono::ParseError);

/// A TLS failure (hyper-tls).
#[verifier::external_type_specification]
#[verifier::external_body]
pub struct ExTlsError(hyper_tls::Error);

/// An I/O failure (std).
#[verifier::external_type_specification]
#[verifier::external_body]
pub struct ExIoError(std::io::Error);

/// Bytes that are not UTF-8, seen through a slice (std).
#[verifier::external_type_specification]
#[verifier::external_body]
pub struct ExUtf8Error(std::str::Utf8Error);

/// Bytes that are not UTF-8, seen through an owned buffer (std).
#[verifier::external_type_specification]
#[verifier::external_body]
pub struct ExFromUtf8Error(std::string::FromUtf8Error);

/// A malformed integer (std).
#[verifier::external_type_specification]
#[verifier::external_body]
pub struct ExParseIntError(std::num::ParseIntError);

/// Relies on std::str::from_utf8: it succeeds exactly on valid UTF-8 and then
/// holds the decoded text; the text is copied into an owned `String`.
#[verifier::external_body]
fn utf8_text(bytes: &[u8]) -> (r: Result<String, std::str::Utf8Error>)
    ensures
        r is Ok <==> valid_utf8(bytes@),
        r is Ok ==> r->Ok_0@ == decode_utf8(bytes@),
{
    std::str::from_utf8(bytes).map(|s| s.to_owned())
}

/// Ways in which a storage path fails to split into container and blob.
#[derive(Debug, Clone, Copy, PartialEq, Eq, Structural)]
pub enum AzurePathParseError {
    PathSeparatorNotFoundError,
    MultiplePathSeparatorsFoundError,
    MissingContainerError,
    MissingBlobError,
}

/// What an `UnexpectedHTTPResult` holds: the status that was expected, the
/// status that came, and the response body as text.
pub struct UnexpectedStatus {
    pub expected: u16,
    pub received: u16,
    pub body: Seq<char>,
}

/// A response whose status differs from the one the caller expected.
/// Status codes are held as their numeric value.
#[derive(Debug, Clone, PartialEq, Eq)]
pub struct UnexpectedHTTPResult {
    expected: u16,
    received: u16,
    body: String,
}

impl View for UnexpectedHTTPResult {
    type V = UnexpectedStatus;

    closed spec fn view(&self) -> UnexpectedStatus {
        UnexpectedStatus { expected: self.expected, received: self.received, body: self.body@ }
    }
}

impl UnexpectedHTTPResult {
    pub fn new(expected: u16, received: u16, body: &str) -> (r: UnexpectedHTTPResult)
        ensures
            r@ == (UnexpectedStatus { expected, received, body: body@ }),
    {
        UnexpectedHTTPResult { expected, received, body: body.to_owned() }
    }

    /// The status that was received.
    pub fn status_code(&self) -> (r: u16)
        ensures
            r == self@.received,
    {
        self.received
    }

    /// The status that was expected.
    pub fn expected_status_code(&self) -> (r: u16)
        ensures
            r == self@.expected,
    {
        self.expected
    }

    /// The body of the response, as text.
    pub fn body(&self) -> (r: &str)
        ensures
            r@ == self@.body,
    {
        self.body.as_str()
    }

    pub fn description(&self) -> (r: &'static str)
        ensures
            r@ == "Unexpected HTTP result"@,
    {
        "Unexpected HTTP result"
    }
}

/// Failures met while walking a parsed document to extract typed values.
#[derive(Debug)]
pub enum TraversingError {
    PathNotFound(String),
    MultipleNode(String),
    EnumerationNotMatched(String),
    BooleanNotMatched(String),
    DateTimeParseError(chrono::ParseError),
    TextNotFound,
    ParseIntError(std::num::ParseIntError),
    GenericParseError(String),
}

/// The closed set of failures of the client; each carries its cause.
#[derive(Debug)]
pub enum AzureError {
    ToStrError(http::header::ToStrError),
    JSONError(serde_json::Error),
    HyperError(hyper::Error),
    IOError(std::io::Error),
    XMLError(xml::BuilderError),
    UnexpectedXMLError(String),
    AzurePathParseError(AzurePathParseError),
    UnexpectedHTTPResult(UnexpectedHTTPResult),
    HeaderNotFound(String),
    ResponseParsingError(TraversingError),
    ParseIntError(std::num::ParseIntError),
    GenericError,
    GenericErrorWithText(String),
    InputParametersError(String),
    URLParseError(url::ParseError),
    HttpPrepareError(http::Error),
    ParseUuidError(uuid::parser::ParseError),
    ChronoParserError(chrono::ParseError),
    UTF8Error(std::str::Utf8Error),
    FromUtf8Error(std::string::FromUtf8Error),
    TLSError(hyper_tls::Error),
    SerdeXMLDeserializationError(serde_xml_rs::Error),
    MissingHeaderError(String),
}

impl From<http::header::ToStrError> for AzureError {
    fn from(err: http::header::ToStrError) -> (r: AzureError) {
        AzureError::ToStrError(err)
    }
}

impl vstd::std_specs::convert::FromSpecImpl<http::header::ToStrError> for AzureError {
    open spec fn obeys_from_spec() -> bool {
        true
    }

    open spec fn from_spec(err: http::header::ToStrError) -> AzureError {
        AzureError::ToStrError(err)
    }
}

impl From<serde_json::Error> for AzureError {
    fn from(err: serde_json::Error) -> (r: AzureError) {
        AzureError::JSONError(err)
    }
}

impl vstd::std_specs::convert::FromSpecImpl<serde_json::Error> for AzureError {
    open spec fn obeys_from_spec() -> bool {
        true
    }

    open spec fn from_spec(err: serde_json::Error) -> AzureError {
        AzureError::JSONError(err)
    }
}

impl From<hyper::Error> for AzureError {
    fn from(err: hyper::Error) -> (r: AzureError) {
        AzureError::HyperError(err)
    }
}

impl vstd::std_specs::convert::FromSpecImpl<hyper::Error> for AzureError {
    open spec fn obeys_from_spec() -> bool {
        true
    }

    open spec fn from_spec(err: hyper::Error) -> AzureError {
        AzureError::HyperError(err)
    }
}

impl From<std::io::Error> for AzureError {
    fn from(err: std::io::Error) -> (r: AzureError) {
        AzureError::IOError(err)
    }
}

impl vstd::std_specs::convert::FromSpecImpl<std::io::Error> for AzureError {
    open spec fn obeys_from_spec() -> bool {
        true
    }

    open spec fn from_spec(err: std::io::Error) -> AzureError {
        AzureError::IOError(err)
    }
}

impl From<xml::BuilderError> for AzureError {
    fn from(err: xml::BuilderError) -> (r: AzureError) {
        AzureError::XMLError(err)
    }
}

impl vstd::std_specs::convert::FromSpecImpl<xml::BuilderError> for AzureError {
    open spec fn obeys_from_spec() -> bool {
        true
    }

    open spec fn from_spec(err: xml::BuilderError) -> AzureError {
        AzureError::XMLError(err)
    }
}

impl From<AzurePathParseError> for AzureError {
    fn from(err: AzurePathParseError) -> (r: AzureError) {
        AzureError::AzurePathParseError(err)
    }
}

impl vstd::std_specs::convert::FromSpecImpl<AzurePathParseError> for AzureError {
    open spec fn obeys_from_spec() -> bool {
        true
    }

    open spec fn from_spec(err: AzurePathParseError) -> AzureError {
        AzureError::AzurePathParseError(err)
    }
}

impl From<UnexpectedHTTPResult> for AzureError {
    fn from(err: UnexpectedHTTPResult) -> (r: AzureError) {
        AzureError::UnexpectedHTTPResult(err)
    }
}

impl vstd::std_specs::convert::FromSpecImpl<UnexpectedHTTPResult> for AzureError {
    open spec fn obeys_from_spec() -> bool {
        true
    }

    open spec fn from_spec(err: UnexpectedHTTPResult) -> AzureError {
        AzureError::UnexpectedHTTPResult(err)
    }
}

impl From<TraversingError> for AzureError {
    fn from(err: TraversingError) -> (r: AzureError) {
        AzureError::ResponseParsingError(err)
    }
}

impl vstd::std_specs::convert::FromSpecImpl<TraversingError> for AzureError {
    open spec fn obeys_from_spec() -> bool {
        true
    }

    open spec fn from_spec(err: TraversingError) -> AzureError {
        AzureError::ResponseParsingError(err)
    }
}

impl From<std::num::ParseIntError> for AzureError {
    fn from(err: std::num::ParseIntError) -> (r: AzureError) {
        AzureError::ParseIntError(err)
    }
}

impl vstd::std_specs::convert::FromSpecImpl<std::num::ParseIntError> for AzureError {
    open spec fn obeys_from_spec() -> bool {
        true
    }

    open spec fn from_spec(err: std::num::ParseIntError) -> AzureError {
        AzureError::ParseIntError(err)
    }
}

impl From<url::ParseError> for AzureError {
    fn from(err: url::ParseError) -> (r: AzureError) {
        AzureError::URLParseError(err)
    }
}

impl vstd::std_specs::convert::FromSpecImpl<url::ParseError> for AzureError {
    open spec fn obeys_from_spec() -> bool {
        true
    }

    open spec fn from_spec(err: url::ParseError) -> AzureError {
        AzureError::URLParseError(err)
    }
}

impl From<http::Error> for AzureError {
    fn from(err: http::Error) -> (r: AzureError) {
        AzureError::HttpPrepareError(err)
    }
}

impl vstd::std_specs::convert::FromSpecImpl<http::Error> for AzureError {
    open spec fn obeys_from_spec() -> bool {
        true
    }

    open spec fn from_spec(err: http::Error) -> AzureError {
        AzureError::HttpPrepareError(err)
    }
}

impl From<uuid::parser::ParseError> for AzureError {
    fn from(err: uuid::parser::ParseError) -> (r: AzureError) {
        AzureError::ParseUuidError(err)
    }
}

impl vstd::std_specs::convert::FromSpecImpl<uuid::parser::ParseError> for AzureError {
    open spec fn obeys_from_spec() -> bool {
        true
    }

    open spec fn from_spec(err: uuid::parser::ParseError) -> AzureError {
        AzureError::ParseUuidError(err)
    }
}

impl From<chrono::ParseError> for AzureError {
    fn from(err: chrono::ParseError) -> (r: AzureError) {
        AzureError::ChronoParserError(err)
    }
}

impl vstd::std_specs::convert::FromSpecImpl<chrono::ParseError> for AzureError {
    open spec fn obeys_from_spec() -> bool {
        true
    }

    open spec fn from_spec(err: chrono::ParseError) -> AzureError {
        AzureError::ChronoParserError(err)
    }
}

impl From<std::str::Utf8Error> for AzureError {
    fn from(err: std::str::Utf8Error) -> (r: AzureError) {
        AzureError::UTF8Error(err)
    }
}

impl vstd::std_specs::convert::FromSpecImpl<std::str::Utf8Error> for AzureError {
    open spec fn obeys_from_spec() -> bool {
        true
    }

    open spec fn from_spec(err: std::str::Utf8Error) -> AzureError {
        AzureError::UTF8Error(err)
    }
}

impl From<std::string::FromUtf8Error> for AzureError {
    fn from(err: std::string::FromUtf8Error) -> (r: AzureError) {
        AzureError::FromUtf8Error(err)
    }
}

impl vstd::std_specs::convert::FromSpecImpl<std::string::FromUtf8Error> for AzureError {
    open spec fn obeys_from_spec() -> bool {
        true
    }

    open spec fn from_spec(err: std::string::FromUtf8Error) -> AzureError {
        AzureError::FromUtf8Error(err)
    }
}

impl From<hyper_tls::Error> for AzureError {
    fn from(err: hyper_tls::Error) -> (r: AzureError) {
        AzureError::TLSError(err)
    }
}

impl vstd::std_specs::convert::FromSpecImpl<hyper_tls::Error> for AzureError {
    open spec fn obeys_from_spec() -> bool {
        true
    }

    open spec fn from_spec(err: hyper_tls::Error) -> AzureError {
        AzureError::TLSError(err)
    }
}

impl From<serde_xml_rs::Error> for AzureError {
    fn from(err: serde_xml_rs::Error) -> (r: AzureError) {
        AzureError::SerdeXMLDeserializationError(err)
    }
}

impl vstd::std_specs::convert::FromSpecImpl<serde_xml_rs::Error> for AzureError {
    open spec fn obeys_from_spec() -> bool {
        true
    }

    open spec fn from_spec(err: serde_xml_rs::Error) -> AzureError {
        AzureError::SerdeXMLDeserializationError(err)
    }
}

impl From<chrono::ParseError> for TraversingError {
    fn from(err: chrono::ParseError) -> (r: TraversingError) {
        TraversingError::DateTimeParseError(err)
    }
}

impl vstd::std_specs::convert::FromSpecImpl<chrono::ParseError> for TraversingError {
    open spec fn obeys_from_spec() -> bool {
        true
    }

    open spec fn from_spec(err: chrono::ParseError) -> TraversingError {
        TraversingError::DateTimeParseError(err)
    }
}

impl From<std::num::ParseIntError> for TraversingError {
    fn from(err: std::num::ParseIntError) -> (r: TraversingError) {
        TraversingError::ParseIntError(err)
    }
}

impl vstd::std_specs::convert::FromSpecImpl<std::num::ParseIntError> for TraversingError {
    open spec fn obeys_from_spec() -> bool {
        true
    }

    open spec fn from_spec(err: std::num::ParseIntError) -> TraversingError {
        TraversingError::ParseIntError(err)
    }
}

/// A failure that carries no information becomes the generic kind.
impl From<()> for AzureError {
    fn from(unit: ()) -> (r: AzureError) {
        AzureError::GenericError
    }
}

impl vstd::std_specs::convert::FromSpecImpl<()> for AzureError {
    open spec fn obeys_from_spec() -> bool {
        true
    }

    open spec fn from_spec(unit: ()) -> AzureError {
        AzureError::GenericError
    }
}

/// How an HTTP exchange ended, as the transport reports it. The head of the
/// response is awaited first; the body is read in full only once the head has
/// arrived.
pub enum Exchange<H> {
    /// The transport failed before the status and headers arrived.
    HeadFailed(hyper::Error),
    /// The head arrived, then the transport failed while reading the body.
    BodyFailed(hyper::Error),
    /// The status code, the headers and the whole body.
    Complete(u16, H, Vec<u8>),
}

/// The status, headers and body of a completed exchange; a transport failure
/// at either suspension point becomes a `HyperError` and nothing else is kept.
pub fn extract_status_headers_and_body<H>(exchange: Exchange<H>) -> (r: Result<(u16, H, Vec<u8>), AzureError>)
    ensures
        match exchange {
            Exchange::HeadFailed(e) => r == Err::<(u16, H, Vec<u8>), AzureError>(AzureError::HyperError(e)),
            Exchange::BodyFailed(e) => r == Err::<(u16, H, Vec<u8>), AzureError>(AzureError::HyperError(e)),
            Exchange::Complete(status, headers, body) => r == Ok::<(u16, H, Vec<u8>), AzureError>((status, headers, body)),
        },
{
    match exchange {
        Exchange::HeadFailed(e) => Err(AzureError::HyperError(e)),
        Exchange::BodyFailed(e) => Err(AzureError::HyperError(e)),
        Exchange::Complete(status, headers, body) => Ok((status, headers, body)),
    }
}

/// The headers and body of an exchange whose status is `expected_status_code`.
/// On another status the error holds both statuses and the body as text, or is
/// the decoding error where the body is not UTF-8.
pub fn check_status_extract_headers_and_body<H>(exchange: Exchange<H>, expected_status_code: u16) -> (r: Result<(H, Vec<u8>), AzureError>)
    ensures
        match exchange {
            Exchange::HeadFailed(e) => r == Err::<(H, Vec<u8>), AzureError>(AzureError::HyperError(e)),
            Exchange::BodyFailed(e) => r == Err::<(H, Vec<u8>), AzureError>(AzureError::HyperError(e)),
            Exchange::Complete(status, headers, body) => {
                if status == expected_status_code {
                    r == Ok::<(H, Vec<u8>), AzureError>((headers, body))
                } else if valid_utf8(body@) {
                    r matches Err(AzureError::UnexpectedHTTPResult(u)) && u@ == (UnexpectedStatus {
                        expected: expected_status_code,
                        received: status,
                        body: decode_utf8(body@),
                    })
                } else {
                    r matches Err(AzureError::UTF8Error(_))
                }
            },
        },
{
    match extract_status_headers_and_body(exchange) {
        Err(e) => Err(e),
        Ok((status, headers, body)) => {
            if status == expected_status_code {
                Ok((headers, body))
            } else {
                match utf8_text(body.as_slice()) {
                    Ok(text) => Err(AzureError::UnexpectedHTTPResult(UnexpectedHTTPResult {
                        expected: expected_status_code,
                        received: status,
                        body: text,
                    })),
                    Err(e) => Err(AzureError::UTF8Error(e)),
                }
            }
        },
    }
}

/// The status and the body, decoded as UTF-8, of a completed exchange.
pub fn extract_status_and_body<H>(exchange: Exchange<H>) -> (r: Result<(u16, String), AzureError>)
    ensures
        match exchange {
            Exchange::HeadFailed(e) => r == Err::<(u16, String), AzureError>(AzureError::HyperError(e)),
            Exchange::BodyFailed(e) => r == Err::<(u16, String), AzureError>(AzureError::HyperError(e)),
            Exchange::Complete(status, headers, body) => {
                if valid_utf8(body@) {
                    r matches Ok((s, text)) && s == status && text@ == decode_utf8(body@)
                } else {
                    r matches Err(AzureError::UTF8Error(_))
                }
            },
        },
{
    match extract_status_headers_and_body(exchange) {
        Err(e) => Err(e),
        Ok((status, _headers, body)) => match utf8_text(body.as_slice()) {
            Ok(text) => Ok((status, text)),
            Err(e) => Err(AzureError::UTF8Error(e)),
        },
    }
}

/// The body, as text, of an exchange whose status is `expected_status_code`;
/// on another status the error holds both statuses and that text.
pub fn check_status_extract_body<H>(exchange: Exchange<H>, expected_status_code: u16) -> (r: Result<String, AzureError>)
    ensures
        match exchange {
            Exchange::HeadFailed(e) => r == Err::<String, AzureError>(AzureError::HyperError(e)),
            Exchange::BodyFailed(e) => r == Err::<String, AzureError>(AzureError::HyperError(e)),
            Exchange::Complete(status, headers, body) => {
                if !valid_utf8(body@) {
                    r matches Err(AzureError::UTF8Error(_))
                } else if status == expected_status_code {
                    r matches Ok(text) && text@ == decode_utf8(body@)
                } else {
                    r matches Err(AzureError::UnexpectedHTTPResult(u)) && u@ == (UnexpectedStatus {
                        expected: expected_status_code,
                        received: status,
                        body: decode_utf8(body@),
                    })
                }
            },
        },
{
    match extract_status_and_body(exchange) {
        Err(e) => Err(e),
        Ok((status, body)) => {
            if status == expected_status_code {
                Ok(body)
            } else {
                Err(AzureError::UnexpectedHTTPResult(UnexpectedHTTPResult {
                    expected: expected_status_code,
                    received: status,
                    body,
                }))
            }
        },
    }
}

} // verus!
