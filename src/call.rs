//! The decisions of one completion call, as a machine from event to action:
//! the caller performs each action (acquire or refresh the token, send the
//! request, read the failure body) and hands back what came of it.
use vstd::prelude::*;

use crate::errors::{
    classified, classify_api_error, ApiError, CloudApiError, CompletionError, Plan,
};
use crate::headers::{
    contains_header, get_header, has_header, text_header_of, header_views, inspect_success_headers,
    parse_plan, plan_of, request_headers, request_headers_of, response_info_of,
    Headers, RequestHeaders, ResponseInfo, CURRENT_PLAN_HEADER_NAME, EXPIRED_LLM_TOKEN_HEADER_NAME,
    MODEL_REQUESTS_RESOURCE_HEADER_VALUE, SUBSCRIPTION_LIMIT_RESOURCE_HEADER_NAME,
};
use crate::text::same_text;

verus! {

/// Where a call stands.
#[derive(Debug, PartialEq)]
pub enum CallPhase {
    /// Waiting for the current token.
    AwaitingToken,
    /// Waiting for a refreshed token after an expiry.
    AwaitingRefresh,
    /// The request is out; waiting for the response status and headers.
    AwaitingResponse,
    /// A failure response whose body is being read.
    AwaitingBody { status: u16, headers: Headers },
    /// The call has its outcome.
    Finished,
}

/// What came of the caller's last action.
#[derive(Debug, PartialEq)]
pub enum CallEvent {
    TokenReady(String),
    TokenFailed(String),
    Responded { status: u16, headers: Headers },
    SendFailed(String),
    /// The failure body, with the relay's error envelope as decoded from it
    /// (`None` where it is none).
    BodyRead { body: String, envelope: Option<CloudApiError> },
    BodyFailed(String),
}

/// What the caller does next.
#[derive(Debug, PartialEq)]
pub enum CallAction {
    AcquireToken,
    /// Send the completion request with these headers.
    Send { headers: RequestHeaders },
    RefreshToken,
    /// Read the whole failure body.
    ReadBody,
    /// The call succeeded; decode the body as the response info says.
    Succeed(ResponseInfo),
    Fail(CompletionError),
}

/// One completion call in progress.
pub struct CompletionCall {
    pub app_version: Option<String>,
    /// The token was refreshed once already in this call.
    pub refreshed: bool,
    pub phase: CallPhase,
}

/// The event is one that the phase waits for.
pub open spec fn expects(phase: CallPhase, event: CallEvent) -> bool {
    match phase {
        CallPhase::AwaitingToken | CallPhase::AwaitingRefresh => event is TokenReady
            || event is TokenFailed,
        CallPhase::AwaitingResponse => event is Responded || event is SendFailed,
        CallPhase::AwaitingBody { .. } => event is BodyRead || event is BodyFailed,
        CallPhase::Finished => false,
    }
}

/// `status` is a success status.
pub open spec fn is_success(status: u16) -> bool {
    200 <= status <= 299
}

/// The plan of a quota rejection: a 403 whose resource header names model
/// requests and whose plan header names a plan.
pub open spec fn quota_plan_of(status: u16, headers: Seq<(String, Option<String>)>) -> Option<Plan> {
    let resource = text_header_of(headers, SUBSCRIPTION_LIMIT_RESOURCE_HEADER_NAME@);
    let plan = text_header_of(headers, CURRENT_PLAN_HEADER_NAME@);
    if status == 403 && resource is Some && resource->0@ == MODEL_REQUESTS_RESOURCE_HEADER_VALUE@
        && plan is Some {
        plan_of(plan->0@)
    } else {
        None
    }
}

/// The view of an optional string.
pub open spec fn opt_view(s: Option<String>) -> Option<Seq<char>> {
    match s {
        Some(v) => Some(v@),
        None => None,
    }
}

/// A failed transport step ends the call with its message.
pub open spec fn fails_with_transport(next: CompletionCall, action: CallAction, m: String) -> bool {
    next.phase is Finished && action == CallAction::Fail(CompletionError::Transport { message: m })
}

/// The step that `event` causes from `call`.
pub open spec fn step_spec(
    call: CompletionCall,
    event: CallEvent,
    next: CompletionCall,
    action: CallAction,
) -> bool {
    &&& next.app_version == call.app_version
    &&& match event {
        CallEvent::TokenReady(t) => {
            &&& next.phase is AwaitingResponse
            &&& next.refreshed == call.refreshed
            &&& action matches CallAction::Send { headers } && header_views(headers@)
                == request_headers_of(t@, opt_view(call.app_version))
        },
        CallEvent::TokenFailed(m) => fails_with_transport(next, action, m),
        CallEvent::SendFailed(m) => fails_with_transport(next, action, m),
        CallEvent::BodyFailed(m) => fails_with_transport(next, action, m),
        CallEvent::Responded { status, headers } => {
            if is_success(status) {
                next.phase is Finished && action == CallAction::Succeed(response_info_of(headers@))
            } else if !call.refreshed && has_header(headers@, EXPIRED_LLM_TOKEN_HEADER_NAME@) {
                next.phase is AwaitingRefresh && next.refreshed && action is RefreshToken
            } else if quota_plan_of(status, headers@) is Some {
                next.phase is Finished && action == CallAction::Fail(
                    CompletionError::ModelRequestLimitReached {
                        plan: quota_plan_of(status, headers@)->0,
                    },
                )
            } else if status == 402 {
                next.phase is Finished && action == CallAction::Fail(
                    CompletionError::PaymentRequired,
                )
            } else {
                &&& next.phase == (CallPhase::AwaitingBody { status, headers })
                &&& next.refreshed == call.refreshed
                &&& action is ReadBody
            }
        },
        CallEvent::BodyRead { body, envelope } => {
            &&& next.phase is Finished
            &&& call.phase matches CallPhase::AwaitingBody { status, .. }
                && action matches CallAction::Fail(e)
                && classified(e, status, body@, envelope)
        },
    }
}

impl CompletionCall {
    /// A new call, and its first action: acquire the current token.
    pub fn start(app_version: Option<String>) -> (r: (CompletionCall, CallAction))
        ensures
            r.0.app_version == app_version,
            !r.0.refreshed,
            r.0.phase is AwaitingToken,
            r.1 is AcquireToken,
    {
        let call = CompletionCall { app_version, refreshed: false, phase: CallPhase::AwaitingToken };
        (call, CallAction::AcquireToken)
    }

    /// Whether `event` is one that the call waits for now.
    pub fn accepts(&self, event: &CallEvent) -> (r: bool)
        ensures
            r == expects(self.phase, *event),
    {
        match self.phase {
            CallPhase::AwaitingToken | CallPhase::AwaitingRefresh => matches!(
                event,
                CallEvent::TokenReady(_) | CallEvent::TokenFailed(_)
            ),
            CallPhase::AwaitingResponse => matches!(
                event,
                CallEvent::Responded { .. } | CallEvent::SendFailed(_)
            ),
            CallPhase::AwaitingBody { .. } => matches!(
                event,
                CallEvent::BodyRead { .. } | CallEvent::BodyFailed(_)
            ),
            CallPhase::Finished => false,
        }
    }

    /// Whether the call has its outcome.
    pub fn is_finished(&self) -> (r: bool)
        ensures
            r == self.phase is Finished,
    {
        matches!(self.phase, CallPhase::Finished)
    }

    /// The next step: on success status the call succeeds; on the first
    /// expired-token failure the token is refreshed and the request sent
    /// again, once only; a quota rejection and a payment demand end the call
    /// at once; any other failure has its body read and classified.
    pub fn step(self, event: CallEvent) -> (r: (CompletionCall, CallAction))
        requires
            expects(self.phase, event),
        ensures
            step_spec(self, event, r.0, r.1),
    {
        let app_version = self.app_version;
        let refreshed = self.refreshed;
        match event {
            CallEvent::TokenReady(t) => {
                let headers = request_headers(t.as_str(), &app_version);
                let next = CompletionCall { app_version, refreshed, phase: CallPhase::AwaitingResponse };
                (next, CallAction::Send { headers })
            },
            CallEvent::TokenFailed(m) | CallEvent::SendFailed(m) | CallEvent::BodyFailed(m) => {
                finish(app_version, refreshed, CallAction::Fail(CompletionError::Transport { message: m }))
            },
            CallEvent::Responded { status, headers } => {
                if 200 <= status && status <= 299 {
                    let info = inspect_success_headers(&headers);
                    return finish(app_version, refreshed, CallAction::Succeed(info));
                }
                if !refreshed && contains_header(&headers, EXPIRED_LLM_TOKEN_HEADER_NAME) {
                    let next = CompletionCall {
                        app_version,
                        refreshed: true,
                        phase: CallPhase::AwaitingRefresh,
                    };
                    return (next, CallAction::RefreshToken);
                }
                if let Some(plan) = quota_plan(status, &headers) {
                    let e = CompletionError::ModelRequestLimitReached { plan };
                    return finish(app_version, refreshed, CallAction::Fail(e));
                }
                if status == 402 {
                    return finish(
                        app_version,
                        refreshed,
                        CallAction::Fail(CompletionError::PaymentRequired),
                    );
                }
                let phase = CallPhase::AwaitingBody { status, headers };
                (CompletionCall { app_version, refreshed, phase }, CallAction::ReadBody)
            },
            CallEvent::BodyRead { body, envelope } => {
                match self.phase {
                    CallPhase::AwaitingBody { status, headers } => {
                        let e = classify_api_error(ApiError { status, body, headers }, envelope);
                        finish(app_version, refreshed, CallAction::Fail(e))
                    },
                    _ => {
                        proof {
                            assert(false);
                        }
                        finish(app_version, refreshed, CallAction::ReadBody)
                    },
                }
            },
        }
    }
}

/// A call that has its outcome, and the action that reports it.
fn finish(app_version: Option<String>, refreshed: bool, action: CallAction) -> (r: (
    CompletionCall,
    CallAction,
))
    ensures
        r.0.app_version == app_version,
        r.0.refreshed == refreshed,
        r.0.phase is Finished,
        r.1 == action,
{
    (CompletionCall { app_version, refreshed, phase: CallPhase::Finished }, action)
}

/// The plan of a quota rejection, if the response is one.
pub fn quota_plan(status: u16, headers: &Headers) -> (r: Option<Plan>)
    ensures
        r == quota_plan_of(status, headers@),
{
    if status != 403 {
        return None;
    }
    let resource = match get_header(headers, SUBSCRIPTION_LIMIT_RESOURCE_HEADER_NAME) {
        Some(v) => v,
        None => return None,
    };
    if !same_text(resource.as_str(), MODEL_REQUESTS_RESOURCE_HEADER_VALUE) {
        return None;
    }
    match get_header(headers, CURRENT_PLAN_HEADER_NAME) {
        Some(p) => parse_plan(p.as_str()),
        None => None,
    }
}

/// A first failure that bears the expired-token header leads to exactly one
/// refresh and a resend with the refreshed token; a second such failure in
/// the same call is not refreshed again but heads for a terminal error.
pub proof fn lemma_single_refresh(
    c0: CompletionCall,
    status1: u16,
    headers1: Headers,
    c1: CompletionCall,
    a1: CallAction,
    token: String,
    c2: CompletionCall,
    a2: CallAction,
    status2: u16,
    headers2: Headers,
    c3: CompletionCall,
    a3: CallAction,
)
    requires
        c0.phase is AwaitingResponse,
        !c0.refreshed,
        !is_success(status1),
        has_header(headers1@, EXPIRED_LLM_TOKEN_HEADER_NAME@),
        step_spec(c0, CallEvent::Responded { status: status1, headers: headers1 }, c1, a1),
        step_spec(c1, CallEvent::TokenReady(token), c2, a2),
        !is_success(status2),
        has_header(headers2@, EXPIRED_LLM_TOKEN_HEADER_NAME@),
        step_spec(c2, CallEvent::Responded { status: status2, headers: headers2 }, c3, a3),
    ensures
        a1 is RefreshToken,
        c1.phase is AwaitingRefresh,
        a2 matches CallAction::Send { headers } && header_views(headers@) == request_headers_of(
            token@,
            opt_view(c0.app_version),
        ),
        a3 !is RefreshToken,
        a3 is Fail && c3.phase is Finished || a3 is ReadBody && c3.phase is AwaitingBody,
{
}

/// Once a failure body is read, or cannot be read, the call ends with an error.
pub proof fn lemma_failure_body_is_terminal(
    c: CompletionCall,
    event: CallEvent,
    next: CompletionCall,
    action: CallAction,
)
    requires
        c.phase is AwaitingBody,
        expects(c.phase, event),
        step_spec(c, event, next, action),
    ensures
        next.phase is Finished,
        action is Fail,
{
}

} // verus!
