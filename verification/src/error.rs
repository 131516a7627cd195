//! Errors of Jira operations, how Jira's error responses become errors,
//! and which failures are worth retrying.
use crate::text;
use crate::text::{append_decimal, append_str, contains_str};
use vstd::prelude::*;
use vstd::string::*;

verus! {

/// Errors of Jira operations.
pub enum JiraError {
    /// HTTP-related errors with status codes
    HttpError { status: u16, message: String },
    /// Jira API-specific errors
    ApiError { message: String, error_codes: Option<Vec<String>> },
    /// Validation errors
    ValidationError { field: String, message: String },
    /// Authentication and authorization errors
    AuthError { message: String },
    /// Configuration-related errors
    ConfigError { message: String },
    /// Serialization/deserialization errors, with the serializer's message
    SerializationError(String),
    /// HTTP client errors: the client's message and whether it was a timeout
    HttpClientError { message: String, is_timeout: bool },
    /// IO errors
    IoError(String),
    /// Errors of the configuration loader
    ConfigErrorWrapper(String),
    /// Errors passed on from elsewhere
    AnyhowError(String),
    /// URL parsing errors
    UrlError(String),
    /// Unknown or unexpected errors
    Unknown { message: String },
}

/// What an error response of Jira carries, as far as error reporting reads it.
pub enum ErrorBody {
    /// `errorMessages` is an array: each item, `Some` text when the item is a string.
    Messages(Vec<Option<String>>),
    /// `errors` is an object: each field with its value rendered as JSON text.
    FieldErrors(Vec<(String, String)>),
    /// Neither of the above.
    Other,
}

/// The reason phrase that the HTTP status registry gives a status code.
pub uninterp spec fn canonical_reason(code: u16) -> Option<Seq<char>>;

/// How a status code displays: the number and its reason phrase.
pub open spec fn status_text(code: u16) -> Seq<char> {
    text::decimal(code as nat) + " "@ + match canonical_reason(code) {
        Some(r) => r,
        None => "<unknown status code>"@,
    }
}

/// `reqwest::StatusCode`'s `Display` for a valid code (100 to 999): the
/// number, a space and the canonical reason phrase (`canonical_reason`), or
/// `<unknown status code>` when the registry has none.
#[verifier::external_body]
pub(crate) fn status_display(code: u16) -> (r: String)
    requires
        100 <= code <= 999,
    ensures
        r@ == text::decimal(code as nat) + " "@ + match canonical_reason(code) {
            Some(reason) => reason,
            None => "<unknown status code>"@,
        },
{
    match reqwest::StatusCode::from_u16(code) {
        Ok(status) => status.to_string(),
        Err(_) => String::new(),
    }
}

/// The texts among the items, in order.
pub open spec fn string_items(items: Seq<Option<String>>) -> Seq<Seq<char>>
    decreases items.len(),
{
    if items.len() == 0 {
        Seq::empty()
    } else {
        let rest = string_items(items.drop_last());
        match items.last() {
            Some(s) => rest.push(s@),
            None => rest,
        }
    }
}

/// Texts joined with `, `.
pub open spec fn joined(parts: Seq<Seq<char>>) -> Seq<char>
    decreases parts.len(),
{
    if parts.len() == 0 {
        Seq::empty()
    } else if parts.len() == 1 {
        parts[0]
    } else {
        joined(parts.drop_last()) + ", "@ + parts.last()
    }
}

/// Each field error as `field: value`.
pub open spec fn field_error_texts(errors: Seq<(String, String)>) -> Seq<Seq<char>> {
    errors.map_values(|e: (String, String)| e.0@ + ": "@ + e.1@)
}

/// The message of the error that an error response becomes.
pub open spec fn response_message(status: u16, body: ErrorBody) -> Seq<char> {
    match body {
        ErrorBody::Messages(items) => joined(string_items(items@)),
        ErrorBody::FieldErrors(errors) => joined(field_error_texts(errors@)),
        ErrorBody::Other => "HTTP "@ + status_text(status),
    }
}

/// The error codes of the error that an error response becomes: the field
/// names of field errors, nothing otherwise.
pub open spec fn response_codes(body: ErrorBody) -> Seq<Seq<char>> {
    match body {
        ErrorBody::FieldErrors(errors) => errors@.map_values(|e: (String, String)| e.0@),
        _ => Seq::empty(),
    }
}

proof fn lemma_joined_push(parts: Seq<Seq<char>>, x: Seq<char>)
    ensures
        joined(parts.push(x)) == if parts.len() == 0 {
            x
        } else {
            joined(parts) + ", "@ + x
        },
{
    assert(parts.push(x).drop_last() =~= parts);
}

/// Appends `part` to `out`, separated by `, ` unless it is the first part.
fn append_joined(out: &mut String, first: bool, part: &str)
    ensures
        final(out)@ == if first {
            old(out)@ + part@
        } else {
            old(out)@ + ", "@ + part@
        },
{
    if !first {
        append_str(out, ", ");
    }
    append_str(out, part);
}

impl JiraError {
    /// The error that a Jira error response becomes: an API error whose
    /// message joins the error messages (or the field errors), and whose
    /// codes are the names of the fields in error.
    pub fn from_jira_response(status: u16, body: &ErrorBody) -> (r: Self)
        requires
            100 <= status <= 999,
        ensures
            r is ApiError,
            r->ApiError_message@ == response_message(status, *body),
            r->ApiError_error_codes is Some,
            r->ApiError_error_codes->0@.map_values(|c: String| c@) == response_codes(*body),
    {
        match body {
            ErrorBody::Messages(items) => {
                let mut message = String::new();
                let mut count: usize = 0;
                let mut i: usize = 0;
                let ghost all = items@;
                while i < items.len()
                    invariant
                        all == items@,
                        i <= all.len(),
                        count == string_items(all.take(i as int)).len(),
                        count <= i,
                        message@ == joined(string_items(all.take(i as int))),
                    decreases all.len() - i,
                {
                    assert(all.take(i + 1).drop_last() =~= all.take(i as int));
                    if let Some(s) = &items[i] {
                        proof {
                            lemma_joined_push(string_items(all.take(i as int)), s@);
                        }
                        append_joined(&mut message, count == 0, s.as_str());
                        count = count + 1;
                    }
                    i = i + 1;
                }
                assert(all.take(i as int) =~= all);
                let codes: Vec<String> = Vec::new();
                assert(codes@.map_values(|c: String| c@) =~= Seq::<Seq<char>>::empty());
                JiraError::ApiError { message, error_codes: Some(codes) }
            },
            ErrorBody::FieldErrors(errors) => {
                let mut message = String::new();
                let mut codes: Vec<String> = Vec::new();
                let mut i: usize = 0;
                let ghost all = errors@;
                while i < errors.len()
                    invariant
                        all == errors@,
                        i <= all.len(),
                        message@ == joined(field_error_texts(all.take(i as int))),
                        codes@.len() == i,
                        codes@.map_values(|c: String| c@) == all.take(i as int).map_values(
                            |e: (String, String)| e.0@,
                        ),
                    decreases all.len() - i,
                {
                    let mut part = String::from_str(errors[i].0.as_str());
                    append_str(&mut part, ": ");
                    append_str(&mut part, errors[i].1.as_str());
                    proof {
                        lemma_joined_push(field_error_texts(all.take(i as int)), part@);
                    }
                    append_joined(&mut message, i == 0, part.as_str());
                    let ghost old_codes = codes@;
                    codes.push(String::from_str(errors[i].0.as_str()));
                    assert(all.take(i + 1) =~= all.take(i as int).push(all[i as int]));
                    assert(field_error_texts(all.take(i + 1)) =~= field_error_texts(all.take(i as int)).push(
                        part@,
                    ));
                    assert(codes@[i as int]@ == all[i as int].0@);
                    assert forall|j: int| 0 <= j < i implies #[trigger] codes@[j]@ == all[j].0@ by {
                        assert(old_codes.map_values(|c: String| c@)[j] == all.take(i as int).map_values(
                            |e: (String, String)| e.0@,
                        )[j]);
                    }
                    assert(codes@.map_values(|c: String| c@) =~= all.take(i + 1).map_values(
                        |e: (String, String)| e.0@,
                    ));
                    i = i + 1;
                }
                assert(all.take(i as int) =~= all);
                JiraError::ApiError { message, error_codes: Some(codes) }
            },
            ErrorBody::Other => {
                let mut message = String::from_str("HTTP ");
                let shown = status_display(status);
                append_str(&mut message, shown.as_str());
                let codes: Vec<String> = Vec::new();
                assert(codes@.map_values(|c: String| c@) =~= Seq::<Seq<char>>::empty());
                JiraError::ApiError { message, error_codes: Some(codes) }
            },
        }
    }

    /// A simple API error.
    pub fn api_error(message: &str) -> (r: Self)
        ensures
            r matches JiraError::ApiError { message: m, error_codes: None } && m@ == message@,
    {
        JiraError::ApiError { message: String::from_str(message), error_codes: None }
    }

    /// A validation error.
    pub fn validation_error(field: &str, message: &str) -> (r: Self)
        ensures
            r matches JiraError::ValidationError { field: f, message: m } && f@ == field@ && m@
                == message@,
    {
        JiraError::ValidationError { field: String::from_str(field), message: String::from_str(message) }
    }

    /// An authentication error.
    pub fn auth_error(message: &str) -> (r: Self)
        ensures
            r matches JiraError::AuthError { message: m } && m@ == message@,
    {
        JiraError::AuthError { message: String::from_str(message) }
    }

    /// A configuration error.
    pub fn config_error(message: &str) -> (r: Self)
        ensures
            r matches JiraError::ConfigError { message: m } && m@ == message@,
    {
        JiraError::ConfigError { message: String::from_str(message) }
    }

    /// An unknown error.
    pub fn unknown_error(message: &str) -> (r: Self)
        ensures
            r matches JiraError::Unknown { message: m } && m@ == message@,
    {
        JiraError::Unknown { message: String::from_str(message) }
    }

    /// Whether a bulk operation that failed with this error is worth
    /// retrying: client timeouts, and API errors that speak of a timeout or
    /// of rate limiting.
    pub fn is_transient(&self) -> (r: bool)
        ensures
            r == match *self {
                JiraError::HttpClientError { is_timeout, .. } => is_timeout,
                JiraError::ApiError { message, .. } => text::has_infix(message@, "timeout"@)
                    || text::has_infix(message@, "rate limit"@) || text::has_infix(
                    message@,
                    "too many requests"@,
                ),
                _ => false,
            },
    {
        match self {
            JiraError::HttpClientError { is_timeout, .. } => *is_timeout,
            JiraError::ApiError { message, .. } => {
                contains_str(message.as_str(), "timeout") || contains_str(
                    message.as_str(),
                    "rate limit",
                ) || contains_str(message.as_str(), "too many requests")
            },
            _ => false,
        }
    }
}

/// Whether a request that got this HTTP status is retried: 429 and the
/// server errors 500, 502, 503 and 504.
pub open spec fn retryable_status(status: u16) -> bool {
    status == 429 || status == 500 || status == 502 || status == 503 || status == 504
}

/// Whether a request that got this HTTP status is retried.
pub fn should_retry(status: u16) -> (r: bool)
    ensures
        r == retryable_status(status),
{
    status == 429 || status == 500 || status == 502 || status == 503 || status == 504
}

/// The decision after a failed attempt: `Some((count, delay_ms))` when the
/// attempt is retried, with the new retry count and the delay before the
/// next attempt (one second per retry so far); `None` when the failure is
/// final.
pub fn next_retry(retry_count: usize, max_retries: usize, retryable: bool) -> (r: Option<(usize, u64)>)
    requires
        retry_count < u64::MAX / 1000,
    ensures
        (retry_count < max_retries && retryable) ==> r == Some(
            ((retry_count + 1) as usize, (1000 * (retry_count + 1)) as u64),
        ),
        !(retry_count < max_retries && retryable) ==> r is None,
{
    if retry_count < max_retries && retryable {
        let count = retry_count + 1;
        Some((count, 1000 * (count as u64)))
    } else {
        None
    }
}

/// The message of an error (what the error displays as).
pub open spec fn jira_error_text(e: JiraError) -> Seq<char> {
    match e {
        JiraError::HttpError { status, message } => "HTTP error: "@ + status_text(status) + " - "@
            + message@,
        JiraError::ApiError { message, .. } => "Jira API error: "@ + message@,
        JiraError::ValidationError { field, message } => "Validation error: "@ + field@ + " - "@
            + message@,
        JiraError::AuthError { message } => "Authentication error: "@ + message@,
        JiraError::ConfigError { message } => "Configuration error: "@ + message@,
        JiraError::SerializationError(m) => "Serialization error: "@ + m@,
        JiraError::HttpClientError { message, .. } => "HTTP client error: "@ + message@,
        JiraError::IoError(m) => "IO error: "@ + m@,
        JiraError::ConfigErrorWrapper(m) => "Configuration error: "@ + m@,
        JiraError::AnyhowError(m) => "Anyhow error: "@ + m@,
        JiraError::UrlError(m) => "URL parsing error: "@ + m@,
        JiraError::Unknown { message } => "Unknown error: "@ + message@,
    }
}

/// Builds `prefix` followed by `rest`.
fn prefixed(prefix: &str, rest: &str) -> (r: String)
    ensures
        r@ == prefix@ + rest@,
{
    let mut out = String::from_str(prefix);
    append_str(&mut out, rest);
    out
}

impl JiraError {
    /// The message of the error.
    pub fn to_string(&self) -> (r: String)
        requires
            self is HttpError ==> 100 <= self->HttpError_status <= 999,
        ensures
            r@ == jira_error_text(*self),
    {
        match self {
            JiraError::HttpError { status, message } => {
                let mut out = String::from_str("HTTP error: ");
                let shown = status_display(*status);
                append_str(&mut out, shown.as_str());
                append_str(&mut out, " - ");
                append_str(&mut out, message.as_str());
                out
            },
            JiraError::ApiError { message, .. } => prefixed("Jira API error: ", message.as_str()),
            JiraError::ValidationError { field, message } => {
                let mut out = String::from_str("Validation error: ");
                append_str(&mut out, field.as_str());
                append_str(&mut out, " - ");
                append_str(&mut out, message.as_str());
                out
            },
            JiraError::AuthError { message } => prefixed("Authentication error: ", message.as_str()),
            JiraError::ConfigError { message } => prefixed("Configuration error: ", message.as_str()),
            JiraError::SerializationError(m) => prefixed("Serialization error: ", m.as_str()),
            JiraError::HttpClientError { message, .. } => prefixed("HTTP client error: ", message.as_str()),
            JiraError::IoError(m) => prefixed("IO error: ", m.as_str()),
            JiraError::ConfigErrorWrapper(m) => prefixed("Configuration error: ", m.as_str()),
            JiraError::AnyhowError(m) => prefixed("Anyhow error: ", m.as_str()),
            JiraError::UrlError(m) => prefixed("URL parsing error: ", m.as_str()),
            JiraError::Unknown { message } => prefixed("Unknown error: ", message.as_str()),
        }
    }
}

} // verus!
