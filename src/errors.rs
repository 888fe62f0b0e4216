//! The failure taxonomy surfaced to callers, and the classifier that maps a
//! failed relay response onto it.
use std::time::Duration;
use vstd::prelude::*;
use vstd::string::StringExecFns;

use crate::text::{
    all_digits, decimal_within, digits_value, ends_with, has_prefix, has_suffix, parse_decimal_from,
    starts_with, unsigned_part,
};

verus! {

/// The name under which the relay itself is reported as the failing provider.
pub const PROVIDER_NAME: &'static str = "Zed";

/// A failed relay response: status, full body text and headers, captured as
/// they were when the failure was seen.
#[derive(Debug, PartialEq)]
pub struct ApiError {
    pub status: u16,
    pub body: String,
    pub headers: Vec<(String, Option<String>)>,
}

/// The relay's own error envelope, as decoded from a failure body.
///
/// `upstream_status` holds the number as written; a number that is no HTTP
/// status code counts as absent. `retry_after` is the suggested delay.
#[derive(Debug, PartialEq)]
pub struct CloudApiError {
    pub code: String,
    pub message: String,
    pub upstream_status: Option<u16>,
    pub retry_after: Option<Duration>,
}

/// The subscription plan named by a quota rejection.
#[derive(Clone, Copy, Debug, PartialEq, Eq, Structural)]
pub enum Plan {
    Free,
    ZedPro,
    ZedProTrial,
}

/// What a failed completion call reports. Exactly one kind per failure.
#[derive(Debug, PartialEq)]
pub enum CompletionError {
    /// The relay forwarded a failure of the upstream provider.
    UpstreamProviderError { message: String, status: u16, retry_after: Option<Duration> },
    /// The account must pay before further requests.
    PaymentRequired,
    /// The plan's quota of model requests is used up.
    ModelRequestLimitReached { plan: Plan },
    BadRequestFormat { provider: String, message: String },
    AuthenticationError { provider: String, message: String },
    PermissionError { provider: String, message: String },
    ApiEndpointNotFound { provider: String },
    PromptTooLarge { provider: String, message: String },
    RateLimitExceeded { provider: String, retry_after: Option<Duration> },
    ApiInternalServerError { provider: String, message: String },
    ServerOverloaded { provider: String, retry_after: Option<Duration> },
    HttpResponseError { provider: String, status: u16, message: String },
    /// The connection failed, or a response could not be read or decoded.
    Transport { message: String },
}

/// `code` is a number that `http::StatusCode` accepts.
pub open spec fn is_status_code(code: u16) -> bool {
    100 <= code <= 999
}

/// The status code that `code` denotes, if it is one.
pub fn status_code_from_u16(code: u16) -> (r: Option<u16>)
    ensures
        r == (if is_status_code(code) {
            Some(code)
        } else {
            None::<u16>
        }),
{
    if 100 <= code && code <= 999 {
        Some(code)
    } else {
        None
    }
}

/// The kind that a bare HTTP failure status maps to, with its fields.
pub open spec fn status_error(
    r: CompletionError,
    provider: Seq<char>,
    status: u16,
    message: Seq<char>,
    retry_after: Option<Duration>,
) -> bool {
    if status == 400 {
        r matches CompletionError::BadRequestFormat { provider: p, message: m } && p@ == provider
            && m@ == message
    } else if status == 401 {
        r matches CompletionError::AuthenticationError { provider: p, message: m } && p@
            == provider && m@ == message
    } else if status == 403 {
        r matches CompletionError::PermissionError { provider: p, message: m } && p@ == provider
            && m@ == message
    } else if status == 404 {
        r matches CompletionError::ApiEndpointNotFound { provider: p } && p@ == provider
    } else if status == 413 {
        r matches CompletionError::PromptTooLarge { provider: p, message: m } && p@ == provider
            && m@ == message
    } else if status == 429 {
        r matches CompletionError::RateLimitExceeded { provider: p, retry_after: d } && p@
            == provider && d == retry_after
    } else if status == 500 {
        r matches CompletionError::ApiInternalServerError { provider: p, message: m } && p@
            == provider && m@ == message
    } else if status == 503 || status == 529 {
        r matches CompletionError::ServerOverloaded { provider: p, retry_after: d } && p@
            == provider && d == retry_after
    } else {
        r matches CompletionError::HttpResponseError { provider: p, status: s, message: m } && p@
            == provider && s == status && m@ == message
    }
}

/// Maps a failure status of `provider` to its kind: the generic, status-keyed
/// part of the taxonomy.
pub fn from_http_status(
    provider: String,
    status: u16,
    message: String,
    retry_after: Option<Duration>,
) -> (r: CompletionError)
    ensures
        status_error(r, provider@, status, message@, retry_after),
{
    if status == 400 {
        CompletionError::BadRequestFormat { provider, message }
    } else if status == 401 {
        CompletionError::AuthenticationError { provider, message }
    } else if status == 403 {
        CompletionError::PermissionError { provider, message }
    } else if status == 404 {
        CompletionError::ApiEndpointNotFound { provider }
    } else if status == 413 {
        CompletionError::PromptTooLarge { provider, message }
    } else if status == 429 {
        CompletionError::RateLimitExceeded { provider, retry_after }
    } else if status == 500 {
        CompletionError::ApiInternalServerError { provider, message }
    } else if status == 503 || status == 529 {
        CompletionError::ServerOverloaded { provider, retry_after }
    } else {
        CompletionError::HttpResponseError { provider, status, message }
    }
}

/// The envelope code names a failure of an upstream provider.
pub open spec fn is_upstream_code(code: Seq<char>) -> bool {
    has_prefix(code, "upstream_http_"@)
}

/// The status that an upstream failure is reported with: the explicit
/// `upstream_status` if it is a status code; else the outer status when the
/// code is the generic `..._error`; else the status spelled after the prefix
/// of the code, if it is one; else the outer status.
pub open spec fn upstream_status_of(
    code: Seq<char>,
    upstream_status: Option<u16>,
    outer: u16,
) -> u16 {
    if upstream_status is Some && is_status_code(upstream_status->0) {
        upstream_status->0
    } else if has_suffix(code, "_error"@) {
        outer
    } else {
        match decimal_within(
            code.subrange("upstream_http_"@.len() as int, code.len() as int),
            65535,
        ) {
            Some(c) => if is_status_code(c as u16) {
                c as u16
            } else {
                outer
            },
            None => outer,
        }
    }
}

/// Resolves the status of an upstream failure whose code begins with the
/// upstream prefix.
pub fn resolve_upstream_status(code: &str, upstream_status: Option<u16>, outer: u16) -> (r: u16)
    requires
        is_upstream_code(code@),
    ensures
        r == upstream_status_of(code@, upstream_status, outer),
{
    if let Some(s) = upstream_status {
        if 100 <= s && s <= 999 {
            return s;
        }
    }
    if ends_with(code, "_error") {
        return outer;
    }
    proof {
        reveal_strlit("upstream_http_");
    }
    match parse_decimal_from(code, 14, 65535) {
        Some(c) => match status_code_from_u16(c as u16) {
            Some(s) => s,
            None => outer,
        },
        None => outer,
    }
}

/// What a failed relay response is classified as, given the envelope decoded
/// from its body (`None` where the body is no envelope).
pub open spec fn classified(
    r: CompletionError,
    status: u16,
    body: Seq<char>,
    envelope: Option<CloudApiError>,
) -> bool {
    if envelope is Some && is_upstream_code(envelope->0.code@) {
        let e = envelope->0;
        r matches CompletionError::UpstreamProviderError { message: m, status: s, retry_after: d }
            && m@ == e.message@ && s == upstream_status_of(e.code@, e.upstream_status, status)
            && d == e.retry_after
    } else {
        status_error(r, PROVIDER_NAME@, status, body, None)
    }
}

/// Classifies a failed relay response. `envelope` is the relay's error
/// envelope as decoded from `error.body`, or `None` where the body does not
/// decode as one. An envelope whose code is not an upstream code, and a body
/// that is no envelope, both fall back to the status-keyed kinds.
pub fn classify_api_error(error: ApiError, envelope: Option<CloudApiError>) -> (r: CompletionError)
    ensures
        classified(r, error.status, error.body@, envelope),
{
    if let Some(cloud_error) = envelope {
        if starts_with(cloud_error.code.as_str(), "upstream_http_") {
            let status = resolve_upstream_status(
                cloud_error.code.as_str(),
                cloud_error.upstream_status,
                error.status,
            );
            return CompletionError::UpstreamProviderError {
                message: cloud_error.message,
                status,
                retry_after: cloud_error.retry_after,
            };
        }
    }
    from_http_status(String::from_str(PROVIDER_NAME), error.status, error.body, None)
}

/// An upstream envelope with an explicit `upstream_status` that is a status
/// code is reported with that status, whatever the outer status was: two
/// failures that differ only in their outer status classify alike.
pub proof fn lemma_explicit_upstream_status_wins(
    r1: CompletionError,
    status1: u16,
    r2: CompletionError,
    status2: u16,
    body: Seq<char>,
    envelope: CloudApiError,
    explicit: u16,
)
    requires
        classified(r1, status1, body, Some(envelope)),
        classified(r2, status2, body, Some(envelope)),
        is_upstream_code(envelope.code@),
        envelope.upstream_status == Some(explicit),
        is_status_code(explicit),
    ensures
        r1 matches CompletionError::UpstreamProviderError { status: s, message: m, retry_after: d }
            && s == explicit && m@ == envelope.message@ && d == envelope.retry_after,
        r2 matches CompletionError::UpstreamProviderError { status: s, message: m, retry_after: d }
            && s == explicit && m@ == envelope.message@ && d == envelope.retry_after,
{
}

/// An upstream code that ends in `_error`, without a usable
/// `upstream_status`, is reported with the outer status; no number is read
/// from the code.
pub proof fn lemma_error_suffix_keeps_outer_status(
    r: CompletionError,
    status: u16,
    body: Seq<char>,
    envelope: CloudApiError,
)
    requires
        classified(r, status, body, Some(envelope)),
        is_upstream_code(envelope.code@),
        has_suffix(envelope.code@, "_error"@),
        envelope.upstream_status is None || !is_status_code(envelope.upstream_status->0),
    ensures
        r matches CompletionError::UpstreamProviderError { status: s, .. } && s == status,
{
}

/// Without a usable `upstream_status`, an upstream code that does not end in
/// `_error` is reported with the status spelled after the prefix, where that
/// reads as a `u16` status code; otherwise with the outer status.
pub proof fn lemma_status_from_code_suffix(
    r: CompletionError,
    status: u16,
    body: Seq<char>,
    envelope: CloudApiError,
    digits: Seq<char>,
)
    requires
        classified(r, status, body, Some(envelope)),
        envelope.code@ == "upstream_http_"@ + digits,
        !has_suffix(envelope.code@, "_error"@),
        envelope.upstream_status is None || !is_status_code(envelope.upstream_status->0),
    ensures
        r matches CompletionError::UpstreamProviderError { status: s, .. } && s == match decimal_within(
            digits,
            65535,
        ) {
            Some(n) => if is_status_code(n as u16) {
                n as u16
            } else {
                status
            },
            None => status,
        },
{
    let code = envelope.code@;
    let p = "upstream_http_"@;
    assert(code.subrange(0, p.len() as int) =~= p);
    assert(code.subrange(p.len() as int, code.len() as int) =~= digits);
}

/// The generic upstream code `upstream_http_error` without `upstream_status`
/// is reported with the outer status; no number is read from the code.
pub proof fn lemma_generic_upstream_code_keeps_outer_status(
    r: CompletionError,
    status: u16,
    body: Seq<char>,
    envelope: CloudApiError,
)
    requires
        classified(r, status, body, Some(envelope)),
        envelope.code@ == "upstream_http_error"@,
        envelope.upstream_status is None,
    ensures
        r matches CompletionError::UpstreamProviderError { status: s, .. } && s == status,
{
    reveal_strlit("upstream_http_error");
    reveal_strlit("upstream_http_");
    reveal_strlit("_error");
    assert(envelope.code@.subrange(0, 14) =~= "upstream_http_"@);
    assert(envelope.code@.subrange(13, 19) =~= "_error"@);
}

/// The code `upstream_http_429` without `upstream_status` is reported with
/// status 429, read from the code alone.
pub proof fn lemma_status_read_from_code(
    r: CompletionError,
    status: u16,
    body: Seq<char>,
    envelope: CloudApiError,
)
    requires
        classified(r, status, body, Some(envelope)),
        envelope.code@ == "upstream_http_429"@,
        envelope.upstream_status is None,
    ensures
        r matches CompletionError::UpstreamProviderError { status: s, .. } && s == 429,
{
    reveal_strlit("upstream_http_429");
    reveal_strlit("upstream_http_");
    reveal_strlit("_error");
    let code = envelope.code@;
    assert(code.subrange(0, 14) =~= "upstream_http_"@);
    assert(code.subrange(11, 17) != "_error"@) by {
        assert(code.subrange(11, 17)[5] == '9');
    }
    let digits = code.subrange(14, 17);
    assert(digits =~= seq!['4', '2', '9']);
    assert(digits.drop_last() =~= seq!['4', '2']);
    assert(digits.drop_last().drop_last() =~= seq!['4']);
    assert(digits.drop_last().drop_last().drop_last() =~= Seq::<char>::empty());
    assert(seq!['4'].drop_last() =~= Seq::<char>::empty());
    assert(('4' as u32 - '0' as u32) == 4);
    assert(digits_value(Seq::<char>::empty()) == 0);
    assert(seq!['4'].last() == '4');
    assert(seq!['4', '2'].last() == '2');
    assert(digits.last() == '9');
    assert(digits_value(seq!['4']) == 4);
    assert(digits_value(seq!['4', '2']) == 42);
    assert(digits_value(digits) == 429);
    assert(unsigned_part(digits) == digits);
    assert(all_digits(digits));
}

/// An upstream failure carries the envelope's suggested delay unchanged.
pub proof fn lemma_retry_hint_kept(
    r: CompletionError,
    status: u16,
    body: Seq<char>,
    envelope: CloudApiError,
)
    requires
        classified(r, status, body, Some(envelope)),
        is_upstream_code(envelope.code@),
    ensures
        r matches CompletionError::UpstreamProviderError { retry_after: d, message: m, .. } && d
            == envelope.retry_after && m@ == envelope.message@,
{
}

/// A body that does not decode as an envelope falls back to the status-keyed
/// kind of the outer status, with the relay as provider, the body as message
/// and no suggested delay.
pub proof fn lemma_undecodable_body_falls_back(r: CompletionError, status: u16, body: Seq<char>)
    requires
        classified(r, status, body, None),
    ensures
        status_error(r, PROVIDER_NAME@, status, body, None),
        r !is UpstreamProviderError,
{
}

/// A plain 500 failure whose body is no upstream envelope is an internal
/// server error of the relay, with the body kept verbatim as its message.
pub proof fn lemma_plain_server_error(
    r: CompletionError,
    body: Seq<char>,
    envelope: Option<CloudApiError>,
)
    requires
        classified(r, 500, body, envelope),
        envelope is None || !is_upstream_code(envelope->0.code@),
    ensures
        r matches CompletionError::ApiInternalServerError { provider: p, message: m } && p@
            == PROVIDER_NAME@ && m@ == body,
{
}

} // verus!
