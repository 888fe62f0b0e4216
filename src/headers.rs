//! Header contracts of the completion exchange: the headers a request sends,
//! and what the client reads from a response's headers.
use vstd::prelude::*;
use vstd::string::StringExecFns;

use crate::errors::Plan;
use crate::events::{ModelRequestUsage, UsageLimit};
use crate::text::{decimal_within, parse_decimal_from, same_text};

verus! {

pub const ZED_VERSION_HEADER_NAME: &'static str = "x-zed-version";

pub const CLIENT_SUPPORTS_STATUS_MESSAGES_HEADER_NAME: &'static str =
    "x-zed-client-supports-status-messages";

pub const SERVER_SUPPORTS_STATUS_MESSAGES_HEADER_NAME: &'static str =
    "x-zed-server-supports-status-messages";

pub const TOOL_USE_LIMIT_REACHED_HEADER_NAME: &'static str = "x-zed-tool-use-limit-reached";

pub const EXPIRED_LLM_TOKEN_HEADER_NAME: &'static str = "x-zed-expired-token";

pub const SUBSCRIPTION_LIMIT_RESOURCE_HEADER_NAME: &'static str =
    "x-zed-subscription-limit-resource";

pub const MODEL_REQUESTS_RESOURCE_HEADER_VALUE: &'static str = "model_requests";

pub const CURRENT_PLAN_HEADER_NAME: &'static str = "x-zed-plan";

pub const MODEL_REQUESTS_USAGE_AMOUNT_HEADER_NAME: &'static str =
    "x-zed-model-requests-usage-amount";

pub const MODEL_REQUESTS_USAGE_LIMIT_HEADER_NAME: &'static str = "x-zed-model-requests-usage-limit";

/// The headers of a response, names in lower case, in the order received.
/// A value is `None` where it is not visible ASCII text: such a header is
/// present, but its value cannot be read.
pub type Headers = Vec<(String, Option<String>)>;

/// The headers of a request.
pub type RequestHeaders = Vec<(String, String)>;

/// The value of the first header named `name`, as a header map reports it.
pub open spec fn header_of(headers: Seq<(String, Option<String>)>, name: Seq<char>) -> Option<
    Option<String>,
>
    decreases headers.len(),
{
    if headers.len() == 0 {
        None
    } else if headers[0].0@ == name {
        Some(headers[0].1)
    } else {
        header_of(headers.drop_first(), name)
    }
}

/// Whether a header named `name` is present, readable or not.
pub open spec fn has_header(headers: Seq<(String, Option<String>)>, name: Seq<char>) -> bool {
    header_of(headers, name) is Some
}

/// The text of the first header named `name`, where it is readable.
pub open spec fn text_header_of(headers: Seq<(String, Option<String>)>, name: Seq<char>) -> Option<
    String,
> {
    match header_of(headers, name) {
        Some(Some(v)) => Some(v),
        _ => None,
    }
}

/// The first header named `name`: `None` where absent.
pub fn find_header(headers: &Headers, name: &str) -> (r: Option<Option<String>>)
    ensures
        r == header_of(headers@, name@),
{
    let mut i: usize = 0;
    proof {
        assert(headers@.subrange(0, headers@.len() as int) =~= headers@);
    }
    while i < headers.len()
        invariant
            i <= headers@.len(),
            header_of(headers@, name@) == header_of(
                headers@.subrange(i as int, headers@.len() as int),
                name@,
            ),
        decreases headers@.len() - i,
    {
        let ghost rest = headers@.subrange(i as int, headers@.len() as int);
        if same_text(headers[i].0.as_str(), name) {
            return Some(headers[i].1.clone());
        }
        proof {
            assert(rest.drop_first() =~= headers@.subrange(i + 1, headers@.len() as int));
        }
        i = i + 1;
    }
    None
}

/// The text of the first header named `name`, where present and readable.
pub fn get_header(headers: &Headers, name: &str) -> (r: Option<String>)
    ensures
        r == text_header_of(headers@, name@),
{
    match find_header(headers, name) {
        Some(Some(v)) => Some(v),
        _ => None,
    }
}

/// Whether a header named `name` is present, readable or not.
pub fn contains_header(headers: &Headers, name: &str) -> (r: bool)
    ensures
        r == has_header(headers@, name@),
{
    find_header(headers, name).is_some()
}

/// The plan that a plan header value names.
pub open spec fn plan_of(value: Seq<char>) -> Option<Plan> {
    if value == "zed_free"@ {
        Some(Plan::Free)
    } else if value == "zed_pro"@ {
        Some(Plan::ZedPro)
    } else if value == "zed_pro_trial"@ {
        Some(Plan::ZedProTrial)
    } else {
        None
    }
}

/// Reads a plan header value.
pub fn parse_plan(value: &str) -> (r: Option<Plan>)
    ensures
        r == plan_of(value@),
{
    if same_text(value, "zed_free") {
        Some(Plan::Free)
    } else if same_text(value, "zed_pro") {
        Some(Plan::ZedPro)
    } else if same_text(value, "zed_pro_trial") {
        Some(Plan::ZedProTrial)
    } else {
        None
    }
}

/// The quota that a usage-limit header value states.
pub open spec fn usage_limit_of(value: Seq<char>) -> Option<UsageLimit> {
    if value == "unlimited"@ {
        Some(UsageLimit::Unlimited)
    } else {
        match decimal_within(value, u32::MAX as nat) {
            Some(n) => Some(UsageLimit::Limited(n as u32)),
            None => None,
        }
    }
}

/// Reads a usage-limit header value.
pub fn parse_usage_limit(value: &str) -> (r: Option<UsageLimit>)
    ensures
        r == usage_limit_of(value@),
{
    if same_text(value, "unlimited") {
        return Some(UsageLimit::Unlimited);
    }
    proof {
        assert(value@.subrange(0, value@.len() as int) =~= value@);
    }
    match parse_decimal_from(value, 0, u32::MAX) {
        Some(n) => Some(UsageLimit::Limited(n)),
        None => None,
    }
}

/// The request accounting that response headers carry: both the amount and
/// the limit header must be present and readable.
pub open spec fn usage_of(headers: Seq<(String, Option<String>)>) -> Option<ModelRequestUsage> {
    let limit = text_header_of(headers, MODEL_REQUESTS_USAGE_LIMIT_HEADER_NAME@);
    let amount = text_header_of(headers, MODEL_REQUESTS_USAGE_AMOUNT_HEADER_NAME@);
    if limit is Some && amount is Some && usage_limit_of(limit->0@) is Some && decimal_within(
        amount->0@,
        u32::MAX as nat,
    ) is Some {
        Some(
            ModelRequestUsage {
                amount: decimal_within(amount->0@, u32::MAX as nat)->0 as u32,
                limit: usage_limit_of(limit->0@)->0,
            },
        )
    } else {
        None
    }
}

/// Reads the request accounting from response headers.
pub fn usage_from_headers(headers: &Headers) -> (r: Option<ModelRequestUsage>)
    ensures
        r == usage_of(headers@),
{
    let limit = match get_header(headers, MODEL_REQUESTS_USAGE_LIMIT_HEADER_NAME) {
        Some(v) => v,
        None => return None,
    };
    let limit = match parse_usage_limit(limit.as_str()) {
        Some(l) => l,
        None => return None,
    };
    let amount = match get_header(headers, MODEL_REQUESTS_USAGE_AMOUNT_HEADER_NAME) {
        Some(v) => v,
        None => return None,
    };
    proof {
        assert(amount@.subrange(0, amount@.len() as int) =~= amount@);
    }
    match parse_decimal_from(amount.as_str(), 0, u32::MAX) {
        Some(n) => Some(ModelRequestUsage { amount: n, limit }),
        None => None,
    }
}

/// What a successful response's headers decide about its body.
#[derive(Debug, PartialEq)]
pub struct ResponseInfo {
    /// Every line of the body is a status-wrapped event.
    pub includes_status_messages: bool,
    /// A tool-use-limit trailer is owed after the last line.
    pub tool_use_limit_reached: bool,
    /// Usage read from headers; never read where usage arrives in-band.
    pub usage: Option<ModelRequestUsage>,
}

/// What a successful response's headers decide about its body.
pub open spec fn response_info_of(headers: Seq<(String, Option<String>)>) -> ResponseInfo {
    let includes = has_header(headers, SERVER_SUPPORTS_STATUS_MESSAGES_HEADER_NAME@);
    ResponseInfo {
        includes_status_messages: includes,
        tool_use_limit_reached: has_header(headers, TOOL_USE_LIMIT_REACHED_HEADER_NAME@),
        usage: if includes {
            None
        } else {
            usage_of(headers)
        },
    }
}

/// Reads the decode mode, the tool-use-limit flag and the header usage of a
/// successful response.
pub fn inspect_success_headers(headers: &Headers) -> (r: ResponseInfo)
    ensures
        r == response_info_of(headers@),
{
    let includes_status_messages = contains_header(
        headers,
        SERVER_SUPPORTS_STATUS_MESSAGES_HEADER_NAME,
    );
    let tool_use_limit_reached = contains_header(headers, TOOL_USE_LIMIT_REACHED_HEADER_NAME);
    let usage = if includes_status_messages {
        None
    } else {
        usage_from_headers(headers)
    };
    ResponseInfo { includes_status_messages, tool_use_limit_reached, usage }
}

/// The views of header pairs.
pub open spec fn header_views(headers: Seq<(String, String)>) -> Seq<(Seq<char>, Seq<char>)> {
    headers.map_values(|h: (String, String)| (h.0@, h.1@))
}

/// The headers of a completion request: the app version where known, the
/// content type, the bearer token, and the announcement that the client
/// understands status-wrapped events.
pub open spec fn request_headers_of(token: Seq<char>, app_version: Option<Seq<char>>) -> Seq<
    (Seq<char>, Seq<char>),
> {
    let fixed = seq![
        ("Content-Type"@, "application/json"@),
        ("Authorization"@, "Bearer "@ + token),
        (CLIENT_SUPPORTS_STATUS_MESSAGES_HEADER_NAME@, "true"@),
    ];
    match app_version {
        Some(v) => seq![(ZED_VERSION_HEADER_NAME@, v)] + fixed,
        None => fixed,
    }
}

/// Builds the headers of a completion request.
pub fn request_headers(token: &str, app_version: &Option<String>) -> (r: RequestHeaders)
    ensures
        header_views(r@) == request_headers_of(
            token@,
            match app_version {
                Some(v) => Some(v@),
                None => None,
            },
        ),
{
    let mut r: RequestHeaders = Vec::new();
    if let Some(v) = app_version {
        r.push((String::from_str(ZED_VERSION_HEADER_NAME), v.clone()));
    }
    r.push((String::from_str("Content-Type"), String::from_str("application/json")));
    r.push((String::from_str("Authorization"), String::from_str("Bearer ").concat(token)));
    r.push((String::from_str(CLIENT_SUPPORTS_STATUS_MESSAGES_HEADER_NAME), String::from_str("true")));
    proof {
        let av = match app_version {
            Some(v) => Some(v@),
            None => None,
        };
        assert(header_views(r@) =~= request_headers_of(token@, av));
    }
    r
}

} // verus!
