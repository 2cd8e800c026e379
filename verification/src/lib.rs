//! In-process error-capture client: parses and trims backtraces, decorates
//! frames with source context, assembles a sanitized notification payload,
//! and maps transport outcomes to a typed error taxonomy.

pub mod btparse;
pub mod config;
pub mod context;
pub mod payload;
pub mod plugin;
pub mod strutil;

use vstd::prelude::*;

use crate::btparse::catalog_view;
use crate::btparse::decorate_spec;
use crate::btparse::parse_and_decorate;
use crate::btparse::parse_spec;
use crate::btparse::trim_frames_spec;
use crate::config::Config;
use crate::config::ConfigV;
use crate::config::ConnectionConfig;
use crate::config::ConnectionConfigV;
use crate::payload::causes_view;
use crate::payload::BacktraceEntry;
use crate::payload::opt_request_view;
use crate::payload::sanitize_request_spec;
use crate::payload::ErrorCause;
use crate::payload::ErrorCauseV;
use crate::payload::ErrorInfo;
use crate::payload::ErrorInfoV;
use crate::payload::NotifierInfo;
use crate::payload::NotifierInfoV;
use crate::payload::Payload;
use crate::payload::PayloadV;
use crate::payload::RequestInfo;
use crate::payload::RequestInfoV;
use crate::payload::ServerInfo;
use crate::payload::ServerInfoV;
use crate::payload::Stats;
use crate::strutil::chars_to_string;
use crate::strutil::dec_digits;
use crate::strutil::digit_char;
use crate::strutil::opt_str_view;
use crate::strutil::str_eq;
use crate::strutil::u32_to_string;

verus! {

/// Error occurred during error reporting.
///
/// Every reporting failure is converted to one of these variants; none of
/// them ever propagates into the host application's control flow.
#[derive(Debug, PartialEq, Eq)]
pub enum HoneybadgerError {
    /// Reporting is disabled by configuration; a no-op outcome.
    NoReportData,
    /// The API key is missing from the configuration.
    NoApiKey,
    /// Serialization of the payload itself failed; carries the serializer's message.
    CouldNotAssemblePayload(String),
    /// The underlying network call failed to complete; carries the transport's message.
    HttpRequestFailed(String),
    /// The remote rejected the report with a rate-limit or unavailable status.
    TooManyRequests,
    /// The remote rejected the report for billing reasons.
    PaymentRequired,
    /// The remote rejected the API key.
    Forbidden,
    /// The remote answered with an unexpected status code.
    UnknownResponse,
    /// The remote accepted the report but its response body did not decode.
    ResponseDecodeFailed,
}

/// Maps an HTTP status code and the decoded `id` field of the response body
/// to the typed taxonomy: 429/503 are rate-limit rejections, 402 is a billing
/// rejection, 403 an authentication rejection, 201 is success provided the
/// body carried an id, and anything else is unknown.
pub fn classify_status(status: u16, id: Option<String>) -> (r: Result<String, HoneybadgerError>)
    ensures
        (status == 429 || status == 503) ==> r == Err::<String, HoneybadgerError>(
            HoneybadgerError::TooManyRequests,
        ),
        status == 402 ==> r == Err::<String, HoneybadgerError>(HoneybadgerError::PaymentRequired),
        status == 403 ==> r == Err::<String, HoneybadgerError>(HoneybadgerError::Forbidden),
        status == 201 ==> r == (match id {
            Some(s) => Ok::<String, HoneybadgerError>(s),
            None => Err(HoneybadgerError::ResponseDecodeFailed),
        }),
        !(status == 429 || status == 503 || status == 402 || status == 403 || status == 201)
            ==> r == Err::<String, HoneybadgerError>(HoneybadgerError::UnknownResponse),
{
    if status == 429 || status == 503 {
        Err(HoneybadgerError::TooManyRequests)
    } else if status == 402 {
        Err(HoneybadgerError::PaymentRequired)
    } else if status == 403 {
        Err(HoneybadgerError::Forbidden)
    } else if status == 201 {
        match id {
            Some(s) => Ok(s),
            None => Err(HoneybadgerError::ResponseDecodeFailed),
        }
    } else {
        Err(HoneybadgerError::UnknownResponse)
    }
}

/// The finite set of well-known built-in error kinds that classification
/// recognizes.
#[derive(Debug, Clone, Copy, PartialEq, Eq)]
pub enum BuiltinErrorKind {
    BorrowError,
    BorrowMutError,
    DecodeUtf16Error,
    ParseCharError,
    JoinPathsError,
    VarError,
    FromBytesWithNulError,
    IntoStringError,
    NulError,
    FmtError,
    IoError,
    AddrParseError,
    ParseFloatError,
    ParseIntError,
    StripPrefixError,
    ParseBoolError,
    Utf8Error,
    FromUtf16Error,
    FromUtf8Error,
    StringParseError,
    RecvError,
    RecvTimeoutError,
    TryRecvError,
    SystemTimeError,
}

/// The classification of the error being reported: an explicit
/// self-reported type name, a well-known built-in kind (bare or wrapped in
/// an error context), a panic, or an opaque error value.
#[derive(Debug)]
pub enum ErrorKind {
    /// The error reported its own type name.
    Named(String),
    /// A well-known built-in error kind.
    Builtin(BuiltinErrorKind),
    /// A well-known built-in error kind wrapped in an error context.
    BuiltinContext(BuiltinErrorKind),
    /// A captured panic.
    Panic,
    /// An opaque error value.
    Opaque,
}

/// The mathematical value of a classification.
pub enum ErrorKindV {
    Named(Seq<char>),
    Builtin(BuiltinErrorKind),
    BuiltinContext(BuiltinErrorKind),
    Panic,
    Opaque,
}

impl View for ErrorKind {
    type V = ErrorKindV;

    open spec fn view(&self) -> ErrorKindV {
        match self {
            ErrorKind::Named(s) => ErrorKindV::Named(s@),
            ErrorKind::Builtin(k) => ErrorKindV::Builtin(*k),
            ErrorKind::BuiltinContext(k) => ErrorKindV::BuiltinContext(*k),
            ErrorKind::Panic => ErrorKindV::Panic,
            ErrorKind::Opaque => ErrorKindV::Opaque,
        }
    }
}

/// The class name of a well-known built-in error kind.
pub open spec fn builtin_class_name(k: BuiltinErrorKind) -> Seq<char> {
    match k {
        BuiltinErrorKind::BorrowError => "std::cell::BorrowError"@,
        BuiltinErrorKind::BorrowMutError => "std::cell::BorrowMutError"@,
        BuiltinErrorKind::DecodeUtf16Error => "std::char::DecodeUtf16Error"@,
        BuiltinErrorKind::ParseCharError => "std::char::ParseCharError"@,
        BuiltinErrorKind::JoinPathsError => "std::env::JoinPathsError"@,
        BuiltinErrorKind::VarError => "std::env::VarError"@,
        BuiltinErrorKind::FromBytesWithNulError => "std::ffi::FromBytesWithNulError"@,
        BuiltinErrorKind::IntoStringError => "std::ffi::IntoStringError"@,
        BuiltinErrorKind::NulError => "std::ffi::NulError"@,
        BuiltinErrorKind::FmtError => "std::fmt::Error"@,
        BuiltinErrorKind::IoError => "std::io::Error"@,
        BuiltinErrorKind::AddrParseError => "std::net::AddrParseError"@,
        BuiltinErrorKind::ParseFloatError => "std::num::ParseFloatError"@,
        BuiltinErrorKind::ParseIntError => "std::num::ParseIntError"@,
        BuiltinErrorKind::StripPrefixError => "std::path::StripPrefixError"@,
        BuiltinErrorKind::ParseBoolError => "std::str::ParseBoolError"@,
        BuiltinErrorKind::Utf8Error => "std::str::Utf8Error"@,
        BuiltinErrorKind::FromUtf16Error => "std::string::FromUtf16Error"@,
        BuiltinErrorKind::FromUtf8Error => "std::string::FromUtf8Error"@,
        BuiltinErrorKind::StringParseError => "std::string::ParseError"@,
        BuiltinErrorKind::RecvError => "std::sync::mpsc::RecvError"@,
        BuiltinErrorKind::RecvTimeoutError => "std::sync::mpsc::RecvTimeoutError"@,
        BuiltinErrorKind::TryRecvError => "std::sync::mpsc::TryRecvError"@,
        BuiltinErrorKind::SystemTimeError => "std::time::SystemTimeError"@,
    }
}

/// The class name reported for a classification: the self-reported name
/// when there is one, the table entry for a well-known kind (wrapped in
/// the context constructor's name when the kind arrived inside an error
/// context), the panic class for a panic, and a generic fallback class for
/// an opaque error.
pub open spec fn class_of(k: ErrorKindV) -> Seq<char> {
    match k {
        ErrorKindV::Named(s) => s,
        ErrorKindV::Builtin(b) => builtin_class_name(b),
        ErrorKindV::BuiltinContext(b) => "failure::Context<"@ + builtin_class_name(b) + ">"@,
        ErrorKindV::Panic => "mightybadger::Panic"@,
        ErrorKindV::Opaque => "Fail"@,
    }
}

fn builtin_class_string(k: BuiltinErrorKind) -> (r: String)
    ensures
        r@ == builtin_class_name(k),
{
    match k {
        BuiltinErrorKind::BorrowError => String::from_str("std::cell::BorrowError"),
        BuiltinErrorKind::BorrowMutError => String::from_str("std::cell::BorrowMutError"),
        BuiltinErrorKind::DecodeUtf16Error => String::from_str("std::char::DecodeUtf16Error"),
        BuiltinErrorKind::ParseCharError => String::from_str("std::char::ParseCharError"),
        BuiltinErrorKind::JoinPathsError => String::from_str("std::env::JoinPathsError"),
        BuiltinErrorKind::VarError => String::from_str("std::env::VarError"),
        BuiltinErrorKind::FromBytesWithNulError => String::from_str("std::ffi::FromBytesWithNulError"),
        BuiltinErrorKind::IntoStringError => String::from_str("std::ffi::IntoStringError"),
        BuiltinErrorKind::NulError => String::from_str("std::ffi::NulError"),
        BuiltinErrorKind::FmtError => String::from_str("std::fmt::Error"),
        BuiltinErrorKind::IoError => String::from_str("std::io::Error"),
        BuiltinErrorKind::AddrParseError => String::from_str("std::net::AddrParseError"),
        BuiltinErrorKind::ParseFloatError => String::from_str("std::num::ParseFloatError"),
        BuiltinErrorKind::ParseIntError => String::from_str("std::num::ParseIntError"),
        BuiltinErrorKind::StripPrefixError => String::from_str("std::path::StripPrefixError"),
        BuiltinErrorKind::ParseBoolError => String::from_str("std::str::ParseBoolError"),
        BuiltinErrorKind::Utf8Error => String::from_str("std::str::Utf8Error"),
        BuiltinErrorKind::FromUtf16Error => String::from_str("std::string::FromUtf16Error"),
        BuiltinErrorKind::FromUtf8Error => String::from_str("std::string::FromUtf8Error"),
        BuiltinErrorKind::StringParseError => String::from_str("std::string::ParseError"),
        BuiltinErrorKind::RecvError => String::from_str("std::sync::mpsc::RecvError"),
        BuiltinErrorKind::RecvTimeoutError => String::from_str("std::sync::mpsc::RecvTimeoutError"),
        BuiltinErrorKind::TryRecvError => String::from_str("std::sync::mpsc::TryRecvError"),
        BuiltinErrorKind::SystemTimeError => String::from_str("std::time::SystemTimeError"),
    }
}

/// Derives the short class name for the error, from the fixed table of
/// well-known kinds, with a generic fallback for opaque errors.
pub fn error_class(kind: &ErrorKind) -> (r: String)
    ensures
        r@ == class_of(kind@),
{
    match kind {
        ErrorKind::Named(s) => s.clone(),
        ErrorKind::Builtin(k) => builtin_class_string(*k),
        ErrorKind::BuiltinContext(k) => {
            let mut s = String::from_str("failure::Context<");
            let name = builtin_class_string(*k);
            s.append(name.as_str());
            s.append(">");
            s
        },
        ErrorKind::Panic => String::from_str("mightybadger::Panic"),
        ErrorKind::Opaque => String::from_str("Fail"),
    }
}


/// The version and variant bits applied to the seventh byte of the token.
pub open spec fn version_byte(x: u8) -> u8 {
    (x & 0x0f) | 0x40
}

/// The variant bits applied to the ninth byte of the token.
pub open spec fn variant_byte(x: u8) -> u8 {
    (x & 0x3f) | 0x80
}

/// The hexadecimal digit character for a value in `0..=15`.
pub open spec fn hex_digit_char(d: int) -> char {
    if d <= 9 {
        digit_char(d)
    } else if d == 10 {
        'a'
    } else if d == 11 {
        'b'
    } else if d == 12 {
        'c'
    } else if d == 13 {
        'd'
    } else if d == 14 {
        'e'
    } else {
        'f'
    }
}

/// The two hexadecimal digits of a byte, high digit first.
pub open spec fn byte_hex(b: u8) -> Seq<char> {
    seq![hex_digit_char((b / 16) as int), hex_digit_char((b % 16) as int)]
}

/// The standard text rendering of a 128-bit token: the bytes in
/// hexadecimal, grouped 4-2-2-2-6 with hyphens, with the version bits set
/// in byte 6 and the variant bits in byte 8.
pub open spec fn uuid_text(b: Seq<u8>) -> Seq<char> {
    byte_hex(b[0]) + byte_hex(b[1]) + byte_hex(b[2]) + byte_hex(b[3]) + seq!['-'] + byte_hex(b[4])
        + byte_hex(b[5]) + seq!['-'] + byte_hex(version_byte(b[6])) + byte_hex(b[7]) + seq!['-']
        + byte_hex(variant_byte(b[8])) + byte_hex(b[9]) + seq!['-'] + byte_hex(b[10]) + byte_hex(
        b[11],
    ) + byte_hex(b[12]) + byte_hex(b[13]) + byte_hex(b[14]) + byte_hex(b[15])
}

fn hex_digit_char_of(d: u8) -> (r: char)
    requires
        d <= 15,
    ensures
        r == hex_digit_char(d as int),
{
    if d <= 9 {
        crate::strutil::digit_char_of(d as u32)
    } else if d == 10 {
        'a'
    } else if d == 11 {
        'b'
    } else if d == 12 {
        'c'
    } else if d == 13 {
        'd'
    } else if d == 14 {
        'e'
    } else {
        'f'
    }
}

fn push_byte_hex(v: &mut Vec<char>, b: u8)
    ensures
        final(v)@ == old(v)@ + byte_hex(b),
{
    v.push(hex_digit_char_of(b / 16));
    v.push(hex_digit_char_of(b % 16));
    assert(final(v)@ =~= old(v)@ + byte_hex(b));
}

/// Renders 16 bytes as the standard token text, setting the version and
/// variant bits.
pub fn uuid_string_from_bytes(bytes: &Vec<u8>) -> (r: String)
    requires
        bytes@.len() == 16,
    ensures
        r@ == uuid_text(bytes@),
{
    let mut v: Vec<char> = Vec::new();
    push_byte_hex(&mut v, bytes[0]);
    push_byte_hex(&mut v, bytes[1]);
    push_byte_hex(&mut v, bytes[2]);
    push_byte_hex(&mut v, bytes[3]);
    v.push('-');
    push_byte_hex(&mut v, bytes[4]);
    push_byte_hex(&mut v, bytes[5]);
    v.push('-');
    push_byte_hex(&mut v, (bytes[6] & 0x0f) | 0x40);
    push_byte_hex(&mut v, bytes[7]);
    v.push('-');
    push_byte_hex(&mut v, (bytes[8] & 0x3f) | 0x80);
    push_byte_hex(&mut v, bytes[9]);
    v.push('-');
    push_byte_hex(&mut v, bytes[10]);
    push_byte_hex(&mut v, bytes[11]);
    push_byte_hex(&mut v, bytes[12]);
    push_byte_hex(&mut v, bytes[13]);
    push_byte_hex(&mut v, bytes[14]);
    push_byte_hex(&mut v, bytes[15]);
    proof {
        assert(v@ =~= uuid_text(bytes@));
    }
    chars_to_string(&v)
}

/// The token text has the standard shape: 36 characters, hyphens at the
/// four group boundaries, the version digit `4`, and a variant digit of
/// `8`, `9`, `a` or `b`.
pub proof fn lemma_uuid_text_shape(b: Seq<u8>)
    requires
        b.len() == 16,
    ensures
        uuid_text(b).len() == 36,
        uuid_text(b)[8] == '-',
        uuid_text(b)[13] == '-',
        uuid_text(b)[18] == '-',
        uuid_text(b)[23] == '-',
        uuid_text(b)[14] == '4',
        uuid_text(b)[19] == '8' || uuid_text(b)[19] == '9' || uuid_text(b)[19] == 'a'
            || uuid_text(b)[19] == 'b',
{
    let x: u8 = b[6];
    let y: u8 = b[8];
    assert(((x & 0x0f) | 0x40) / 16 == 4) by (bit_vector);
    assert(((y & 0x3f) | 0x80) / 16 == 8 || ((y & 0x3f) | 0x80) / 16 == 9 || ((y & 0x3f) | 0x80)
        / 16 == 10 || ((y & 0x3f) | 0x80) / 16 == 11) by (bit_vector);
    assert(version_byte(x) / 16 == 4);
    assert(variant_byte(y) / 16 == 8 || variant_byte(y) / 16 == 9 || variant_byte(y) / 16 == 10
        || variant_byte(y) / 16 == 11);
}

/// Relies on rand's `OsRng` (`RngCore::fill_bytes`): fills a fresh buffer
/// of 16 bytes from the operating system's randomness source.  Nothing is
/// promised of the values.
#[verifier::external_body]
fn os_random_bytes() -> (r: Vec<u8>)
    ensures
        r@.len() == 16,
{
    let mut rng = rand::rngs::OsRng;
    let mut bytes = [0u8; 16];
    rand::RngCore::fill_bytes(&mut rng, &mut bytes);
    bytes.to_vec()
}

/// Generates the random correlation token: 16 random bytes formatted per
/// the standard UUID text rules, with the version and variant bits set.
pub fn random_uuid() -> (r: Option<String>)
    ensures
        r is Some,
        r matches Some(s) ==> exists|b: Seq<u8>| b.len() == 16 && s@ == uuid_text(b),
        r matches Some(s) ==> s@.len() == 36 && s@[14] == '4' && (s@[19] == '8' || s@[19] == '9'
            || s@[19] == 'a' || s@[19] == 'b'),
{
    let bytes = os_random_bytes();
    let s = uuid_string_from_bytes(&bytes);
    proof {
        assert(bytes@.len() == 16 && s@ == uuid_text(bytes@));
        lemma_uuid_text_shape(bytes@);
    }
    Some(s)
}

/// Whether reports are sent: the explicit `report_data` flag when set,
/// else true unless the configured environment is one of the excluded
/// ones (`test`, `development`, `cucumber`).
pub open spec fn should_report_spec(c: ConfigV) -> bool {
    match c.report_data {
        Some(b) => b,
        None => !(c.env == Some("test"@) || c.env == Some("development"@) || c.env == Some(
            "cucumber"@,
        )),
    }
}

/// Computes the effective "should report" flag from the configuration.
pub fn should_report(config: &Config) -> (r: bool)
    ensures
        r == should_report_spec(config@),
{
    match &config.report_data {
        Some(b) => *b,
        None => match &config.env {
            Some(e) => !(str_eq(e.as_str(), "test") || str_eq(e.as_str(), "development")
                || str_eq(e.as_str(), "cucumber")),
            None => true,
        },
    }
}

/// The URL scheme of the collector endpoint: `http` only when explicitly
/// configured insecure.
pub open spec fn scheme_spec(c: ConnectionConfigV) -> Seq<char> {
    if c.secure == Some(false) {
        "http"@
    } else {
        "https"@
    }
}

/// The collector host, with its documented default.
pub open spec fn host_spec(c: ConnectionConfigV) -> Seq<char> {
    match c.host {
        Some(h) => h,
        None => "api.honeybadger.io"@,
    }
}

/// The collector port, with its documented default.
pub open spec fn port_spec(c: ConnectionConfigV) -> u16 {
    match c.port {
        Some(p) => p,
        None => 443,
    }
}

/// The separator between the scheme and the host of a URL.
pub open spec fn scheme_sep() -> Seq<char> {
    seq![':', '/', '/']
}

/// The collector endpoint: scheme, host and port from the configuration
/// (secure, standard host and 443 by default) and the fixed notices path.
pub open spec fn endpoint_url_spec(c: ConnectionConfigV) -> Seq<char> {
    let port_text = dec_digits(port_spec(c) as int);
    scheme_spec(c) + scheme_sep() + host_spec(c) + ":"@ + port_text + "/v1/notices"@
}

/// Builds the collector endpoint URL for one report.
pub fn endpoint_url(c: &ConnectionConfig) -> (r: String)
    ensures
        r@ == (endpoint_url_spec(c@)),
{
    let secure: bool = match &c.secure {
        Some(b) => *b,
        None => true,
    };
    let scheme: &str = if secure { "https" } else { "http" };
    let mut s = String::from_str(scheme);
    s.append(":");
    s.append("/");
    s.append("/");
    proof {
        reveal_strlit(":");
        reveal_strlit("/");
        assert(":"@ + "/"@ + "/"@ =~= scheme_sep());
    }
    match &c.host {
        Some(h) => {
            s.append(h.as_str());
        },
        None => {
            s.append("api.honeybadger.io");
        },
    }
    s.append(":");
    let port: u16 = match &c.port {
        Some(p) => *p,
        None => 443,
    };
    let port_text = u32_to_string(port as u32);
    s.append(port_text.as_str());
    s.append("/v1/notices");
    proof {
        assert(s@ =~= endpoint_url_spec(c@));
    }
    s
}


/// The homepage of this client library.
pub open spec fn notifier_url_text() -> Seq<char> {
    "https:"@ + seq!['/', '/'] + "github.com/qnighy/mightybadger-rs"@
}

/// The static identity of this client library.
pub open spec fn notifier_info_spec() -> NotifierInfoV {
    NotifierInfoV {
        name: "mightybadger-rust"@,
        url: notifier_url_text(),
        version: "0.1.0"@,
        language: "rust"@,
    }
}

fn make_notifier() -> (n: NotifierInfo)
    ensures
        n@ == (notifier_info_spec()),
{
    let mut url = String::from_str("https:");
    url.append("/");
    url.append("/");
    url.append("github.com/qnighy/mightybadger-rs");
    proof {
        reveal_strlit("/");
        assert(url@ =~= notifier_url_text());
    }
    NotifierInfo {
        name: String::from_str("mightybadger-rust"),
        url,
        version: String::from_str("0.1.0"),
        language: String::from_str("rust"),
    }
}

/// One link of the triggering error's caused-by chain, as handed to the
/// reporting pipeline: its classification, its message and its own
/// captured trace text, when it has one.
#[derive(Debug)]
pub struct CauseReport {
    pub kind: ErrorKind,
    pub message: String,
    pub trace: Option<String>,
}

/// The mathematical value of a cause link report.
pub struct CauseReportV {
    pub kind: ErrorKindV,
    pub message: Seq<char>,
    pub trace: Option<Seq<char>>,
}

impl View for CauseReport {
    type V = CauseReportV;

    open spec fn view(&self) -> CauseReportV {
        CauseReportV { kind: self.kind@, message: self.message@, trace: opt_str_view(self.trace) }
    }
}

/// The triggering error, as handed to the reporting pipeline: its
/// classification, its message, the trace text it carries (if any) and its
/// ordered caused-by chain.
#[derive(Debug)]
pub struct ErrorReport {
    pub kind: ErrorKind,
    pub message: String,
    pub trace: Option<String>,
    pub causes: Vec<CauseReport>,
}

/// The mathematical value of an error report.
pub struct ErrorReportV {
    pub kind: ErrorKindV,
    pub message: Seq<char>,
    pub trace: Option<Seq<char>>,
    pub causes: Seq<CauseReportV>,
}

impl View for ErrorReport {
    type V = ErrorReportV;

    open spec fn view(&self) -> ErrorReportV {
        ErrorReportV {
            kind: self.kind@,
            message: self.message@,
            trace: opt_str_view(self.trace),
            causes: self.causes@.map_values(|c: CauseReport| c@),
        }
    }
}

/// The payload entry built for one cause link: its class name, its message
/// and, when it carried a trace, that trace parsed, trimmed and decorated.
pub open spec fn cause_entry_spec(c: CauseReportV, cat: Seq<(Seq<char>, Seq<Seq<char>>)>) -> ErrorCauseV {
    ErrorCauseV {
        class: class_of(c.kind),
        message: c.message,
        backtrace: match c.trace {
            Some(t) => Some(decorate_spec(trim_frames_spec(parse_spec(t)), cat)),
            None => None,
        },
    }
}

/// The payload entries built for a cause chain, in order.
pub open spec fn causes_payload_spec(cs: Seq<CauseReportV>, cat: Seq<(Seq<char>, Seq<Seq<char>>)>) -> Seq<ErrorCauseV> {
    cs.map_values(|c: CauseReportV| cause_entry_spec(c, cat))
}

/// The complete notification payload assembled for one report: the
/// configured API key, this client's identity, the classified error with
/// its decorated backtrace (from `trace_text`) and cause chain, the
/// sanitized ambient request metadata, and the server facts.
pub open spec fn report_payload_spec(
    cfg: ConfigV,
    e: ErrorReportV,
    token: Option<Seq<char>>,
    trace_text: Seq<char>,
    cat: Seq<(Seq<char>, Seq<Seq<char>>)>,
    req: Option<RequestInfoV>,
    server: ServerInfoV,
) -> PayloadV {
    PayloadV {
        api_key: cfg.api_key.unwrap(),
        notifier: Some(notifier_info_spec()),
        error: ErrorInfoV {
            token: token,
            class: class_of(e.kind),
            message: e.message,
            tags: Seq::empty(),
            fingerprint: Seq::empty(),
            backtrace: Some(decorate_spec(trim_frames_spec(parse_spec(trace_text)), cat)),
            causes: causes_payload_spec(e.causes, cat),
        },
        request: match req {
            Some(r) => Some(sanitize_request_spec(cfg.request, r)),
            None => None,
        },
        server: server,
    }
}

/// Relies on failure's `Backtrace`: captures the stack trace of the
/// current call site and renders it as text.  What the text holds depends
/// on the machine and the build; nothing is promised of it, and the parser
/// accepts any text.
#[verifier::external_body]
fn capture_backtrace() -> String {
    failure::Backtrace::new().to_string()
}

/// Assembles the notification payload for one triggering error: gates on
/// the configuration, requires an API key, parses, trims and decorates the
/// best available trace (the error's own, else one captured here), walks
/// the cause chain, attaches the ambient request metadata and sanitizes
/// it, and attaches the server facts.  No network attempt is made here.
pub fn notify_internal(
    config: &Config,
    error: &ErrorReport,
    token: Option<String>,
    files: &Vec<(String, Vec<String>)>,
    request: Option<RequestInfo>,
    server: ServerInfo,
) -> (r: Result<Payload, HoneybadgerError>)
    ensures
        !should_report_spec(config@) ==> r == Err::<Payload, HoneybadgerError>(
            HoneybadgerError::NoReportData,
        ),
        should_report_spec(config@) && config@.api_key is None ==> r == Err::<
            Payload,
            HoneybadgerError,
        >(HoneybadgerError::NoApiKey),
        (should_report_spec(config@) && config@.api_key is Some) <==> r is Ok,
        r matches Ok(p) ==> (match error@.trace {
            Some(t) => p@ == (report_payload_spec(
                config@,
                error@,
                opt_str_view(token),
                t,
                catalog_view(files@),
                opt_request_view(request),
                server@,
            )),
            None => exists|t: Seq<char>|
                p@ == (report_payload_spec(
                    config@,
                    error@,
                    opt_str_view(token),
                    t,
                    catalog_view(files@),
                    opt_request_view(request),
                    server@,
                )),
        }),
{
    if !should_report(config) {
        return Err(HoneybadgerError::NoReportData);
    }
    let api_key: String = match &config.api_key {
        Some(k) => k.clone(),
        None => {
            return Err(HoneybadgerError::NoApiKey);
        },
    };
    let trace_text: String = match &error.trace {
        Some(t) => t.clone(),
        None => capture_backtrace(),
    };
    let backtrace = parse_and_decorate(trace_text.as_str(), files);
    let notifier = make_notifier();
    let ghost cat = catalog_view(files@);
    let mut causes: Vec<ErrorCause> = Vec::new();
    let mut i: usize = 0;
    while i < error.causes.len()
        invariant
            0 <= i <= error.causes@.len(),
            causes@.len() == i,
            cat == catalog_view(files@),
            forall|k: int|
                0 <= k < i ==> causes@[k]@ == cause_entry_spec(error@.causes[k], cat),
        decreases error.causes@.len() - i,
    {
        let c = &error.causes[i];
        let cause_bt: Option<Vec<BacktraceEntry>> = match &c.trace {
            Some(t) => Some(parse_and_decorate(t.as_str(), files)),
            None => None,
        };
        proof {
            assert(error@.causes[i as int] == error.causes@[i as int]@);
        }
        causes.push(
            ErrorCause { class: error_class(&c.kind), message: c.message.clone(), backtrace: cause_bt },
        );
        i = i + 1;
    }
    proof {
        assert forall|k: int| 0 <= k < causes@.len() implies causes_view(causes@)[k]
            == causes_payload_spec(error@.causes, cat)[k] by {
            assert(causes_view(causes@)[k] == causes@[k]@);
        }
        assert(causes_view(causes@) =~= causes_payload_spec(error@.causes, cat));
    }
    let error_info = ErrorInfo {
        token,
        class: error_class(&error.kind),
        message: error.message.clone(),
        tags: Vec::new(),
        fingerprint: String::new(),
        backtrace: Some(backtrace),
        causes,
    };
    proof {
        assert(error_info.tags.deep_view() =~= Seq::<Seq<char>>::empty());
    }
    let mut payload = Payload {
        api_key,
        notifier: Some(notifier),
        error: error_info,
        request,
        server,
    };
    payload.sanitize(&config.request);
    proof {
        assert(payload@ == (report_payload_spec(
            config@,
            error@,
            opt_str_view(token),
            trace_text@,
            cat,
            opt_request_view(request),
            server@,
        )));
    }
    Ok(payload)
}

/// What the transport reported for one POST attempt.
#[derive(Debug)]
pub enum TransportOutcome {
    /// The payload could not be serialized; carries the serializer's message.
    SerializeFailed(String),
    /// The network call failed to complete; carries the transport's message.
    RequestFailed(String),
    /// The remote answered, with a status code and a body.
    Responded(u16, String),
}

/// The `id` field that the response body decodes to, when the body is a
/// JSON object whose `id` field holds a UUID; the standard hyphenated
/// rendering of that UUID.
pub uninterp spec fn response_id_of(body: Seq<char>) -> Option<Seq<char>>;

/// Relies on serde_json's `from_str` and uuid's `Uuid::parse_str`: decodes
/// the `id` field of a JSON response body as a UUID and renders it in the
/// standard hyphenated form.  The result depends on the body text alone.
#[verifier::external_body]
fn decode_response_id(body: &str) -> (r: Option<String>)
    ensures
        r is Some <==> response_id_of(body@) is Some,
        r matches Some(s) ==> response_id_of(body@) == Some(s@),
{
    let v: serde_json::Value = serde_json::from_str(body).ok()?;
    let id = v.get("id")?.as_str()?;
    let u = uuid::Uuid::parse_str(id).ok()?;
    Some(u.to_string())
}

/// Maps a transport response to the typed taxonomy: 429/503 are rate-limit
/// rejections, 402 a billing rejection, 403 an authentication rejection,
/// any other unexpected status is unknown, and a 201 succeeds exactly when
/// the body decodes to an id.
pub fn interpret_response(status: u16, body: &str) -> (r: Result<String, HoneybadgerError>)
    ensures
        (status == 429 || status == 503) ==> r == Err::<String, HoneybadgerError>(
            HoneybadgerError::TooManyRequests,
        ),
        status == 402 ==> r == Err::<String, HoneybadgerError>(HoneybadgerError::PaymentRequired),
        status == 403 ==> r == Err::<String, HoneybadgerError>(HoneybadgerError::Forbidden),
        status == 201 ==> (match response_id_of(body@) {
            Some(idv) => r matches Ok(s) && s@ == idv,
            None => r == Err::<String, HoneybadgerError>(HoneybadgerError::ResponseDecodeFailed),
        }),
        !(status == 429 || status == 503 || status == 402 || status == 403 || status == 201)
            ==> r == Err::<String, HoneybadgerError>(HoneybadgerError::UnknownResponse),
{
    if status == 201 {
        let id = decode_response_id(body);
        classify_status(status, id)
    } else {
        classify_status(status, None)
    }
}

/// Maps the whole transport outcome of one report to the typed taxonomy.
pub fn interpret_outcome(outcome: TransportOutcome) -> (r: Result<String, HoneybadgerError>)
    ensures
        outcome matches TransportOutcome::SerializeFailed(m) ==> r == Err::<
            String,
            HoneybadgerError,
        >(HoneybadgerError::CouldNotAssemblePayload(m)),
        outcome matches TransportOutcome::RequestFailed(m) ==> r == Err::<
            String,
            HoneybadgerError,
        >(HoneybadgerError::HttpRequestFailed(m)),
        outcome matches TransportOutcome::Responded(st, body) ==> (((st == 429 || st == 503)
            ==> r == Err::<String, HoneybadgerError>(HoneybadgerError::TooManyRequests)) && (st
            == 402 ==> r == Err::<String, HoneybadgerError>(HoneybadgerError::PaymentRequired))
            && (st == 403 ==> r == Err::<String, HoneybadgerError>(HoneybadgerError::Forbidden))
            && (st == 201 ==> (match response_id_of(body@) {
            Some(idv) => r matches Ok(s) && s@ == idv,
            None => r == Err::<String, HoneybadgerError>(HoneybadgerError::ResponseDecodeFailed),
        })) && (!(st == 429 || st == 503 || st == 402 || st == 403 || st == 201) ==> r == Err::<
            String,
            HoneybadgerError,
        >(HoneybadgerError::UnknownResponse))),
{
    match outcome {
        TransportOutcome::SerializeFailed(m) => Err(HoneybadgerError::CouldNotAssemblePayload(m)),
        TransportOutcome::RequestFailed(m) => Err(HoneybadgerError::HttpRequestFailed(m)),
        TransportOutcome::Responded(st, body) => interpret_response(st, body.as_str()),
    }
}

/// Relies on chrono's `Utc::now` and its formatter: the current UTC time
/// rendered as date, time and zone name.  The value depends on the clock;
/// nothing is promised of it.
#[verifier::external_body]
fn now_string() -> String {
    chrono::Utc::now().format("%Y-%m-%d %H:%M:%S %Z").to_string()
}

/// Builds the server information for one report: configuration facts, the
/// probe's readings, the current time and the process id.
pub fn generate_server_info(config: &Config, stats: Stats, pid: u32) -> (r: ServerInfo)
    ensures
        r@.project_root == config@.root,
        r@.revision == config@.revision,
        r@.environment_name == config@.env,
        r@.hostname == config@.hostname,
        r@.stats == stats@,
        r@.pid == pid,
{
    let time = now_string();
    ServerInfo::generate(config, stats, time, pid)
}

} // verus!
