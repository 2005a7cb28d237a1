use vstd::prelude::*;
use url::Url;
use crate::error::BodyFailure;
use crate::error::lemma_failure_status_is_error;
use crate::error::ProxyError;
use crate::error::UpstreamFailure;
use crate::forward::build_outbound;
use crate::forward::InboundRequest;
use crate::forward::InboundView;
use crate::forward::outbound_of;
use crate::forward::OutboundRequest;
use crate::forward::OutboundView;
use crate::relay::failure_response;
use crate::relay::failure_view;
use crate::relay::ProxiedResponse;
use crate::relay::relay;
use crate::relay::relayed;
use crate::relay::ResponseView;
use crate::relay::UpstreamResponse;
use crate::target::API_PREFIX;
use crate::target::lemma_prefix_removed_once;
use crate::target::ProxyConfig;
use crate::target::target_text;
use crate::urls::url_text;
use crate::urls::url_with_path;
use crate::urls::url_with_query;

verus! {

/// The upstream base URL of the configuration that a handler was given, if
/// it was given one.
pub open spec fn config_view(config: Option<&ProxyConfig>) -> Option<Url> {
    match config {
        Some(shared) => Some(shared.base_url()),
        None => None,
    }
}

/// The content of what came of reading the inbound request.
pub open spec fn inbound_view(inbound: Result<InboundRequest, BodyFailure>) -> Result<
    InboundView,
    BodyFailure,
> {
    match inbound {
        Ok(request) => Ok(request.deep_view()),
        Err(failure) => Err(failure),
    }
}

/// The content of what came of preparing the outbound request.
pub open spec fn plan_view(plan: Result<OutboundRequest, ProxyError>) -> Result<
    OutboundView,
    ProxyError,
> {
    match plan {
        Ok(request) => Ok(request.deep_view()),
        Err(error) => Err(error),
    }
}

/// The content of what came of asking the upstream.
pub open spec fn reply_view(reply: Result<UpstreamResponse, UpstreamFailure>) -> Result<
    ResponseView,
    UpstreamFailure,
> {
    match reply {
        Ok(response) => Ok(response.deep_view()),
        Err(failure) => Err(failure),
    }
}

/// The content of what came of the whole exchange.
pub open spec fn outcome_view(outcome: Result<ProxiedResponse, ProxyError>) -> Result<
    ResponseView,
    ProxyError,
> {
    match outcome {
        Ok(response) => Ok(response.deep_view()),
        Err(error) => Err(error),
    }
}

/// What is to be sent to the upstream, decided before anything is sent.
///
/// A body that could not be read ends the exchange first; a handler without
/// configuration ends it next; an upstream URL that cannot be expressed ends
/// it as an unreachable upstream. Otherwise there is exactly one outbound
/// request.
pub open spec fn prepared(config: Option<Url>, inbound: Result<InboundView, BodyFailure>) -> Result<
    OutboundView,
    ProxyError,
> {
    match inbound {
        Err(failure) => Err(ProxyError::BodyReadError(failure)),
        Ok(request) => match config {
            None => Err(ProxyError::MissingState),
            Some(base) => match target_text(base, request.path, request.query) {
                None => Err(ProxyError::UpstreamUnreachable(UpstreamFailure::InvalidUrl)),
                Some(url) => Ok(outbound_of(url, request)),
            },
        },
    }
}

/// What the client is to be given, decided once the upstream has answered or
/// failed: the relayed response, or the failure.
pub open spec fn concluded(reply: Result<ResponseView, UpstreamFailure>) -> Result<
    ResponseView,
    ProxyError,
> {
    match reply {
        Ok(response) => Ok(relayed(response)),
        Err(failure) => Err(ProxyError::UpstreamUnreachable(failure)),
    }
}

/// The response that the client receives: the relayed one, or the one that
/// takes its place.
pub open spec fn answered(outcome: Result<ResponseView, ProxyError>) -> ResponseView {
    match outcome {
        Ok(response) => response,
        Err(error) => failure_view(error),
    }
}

/// Decides what is to be sent to the upstream.
///
/// `inbound` is the request with its body read to the end, or the reason for
/// which the body could not be read; `config` is the shared configuration, if
/// the handler was given one.
pub fn prepare(config: Option<&ProxyConfig>, inbound: Result<InboundRequest, BodyFailure>) -> (plan:
    Result<OutboundRequest, ProxyError>)
    ensures
        plan_view(plan) == prepared(config_view(config), inbound_view(inbound)),
{
    match inbound {
        Err(failure) => Err(ProxyError::BodyReadError(failure)),
        Ok(request) => match config {
            None => Err(ProxyError::MissingState),
            Some(shared) => {
                let query = match &request.query {
                    Some(text) => Some(text.as_str()),
                    None => None,
                };
                match shared.target(request.path.as_str(), query) {
                    None => Err(ProxyError::UpstreamUnreachable(UpstreamFailure::InvalidUrl)),
                    Some(url) => Ok(build_outbound(url, request)),
                }
            },
        },
    }
}

/// Decides what the client is to be given.
///
/// `reply` is the upstream's response with its body read to the end, or the
/// reason for which there is none.
pub fn conclude(reply: Result<UpstreamResponse, UpstreamFailure>) -> (outcome: Result<
    ProxiedResponse,
    ProxyError,
>)
    ensures
        outcome_view(outcome) == concluded(reply_view(reply)),
{
    match reply {
        Ok(response) => Ok(relay(response)),
        Err(failure) => Err(ProxyError::UpstreamUnreachable(failure)),
    }
}

/// The response that the client receives.
pub fn answer(outcome: Result<ProxiedResponse, ProxyError>) -> (response: ProxiedResponse)
    ensures
        response.deep_view() == answered(outcome_view(outcome)),
{
    match outcome {
        Ok(response) => response,
        Err(error) => failure_response(error),
    }
}

/// One whole exchange: prepares the outbound request, hands it to `upstream`
/// once, and decides on what came back. Where nothing can be sent, `upstream`
/// is not called.
pub fn reverse_proxy<F>(
    config: Option<&ProxyConfig>,
    inbound: Result<InboundRequest, BodyFailure>,
    upstream: F,
) -> (outcome: Result<ProxiedResponse, ProxyError>) where
    F: FnOnce(OutboundRequest) -> Result<UpstreamResponse, UpstreamFailure>,

    requires
        forall|outbound: OutboundRequest|
            prepared(config_view(config), inbound_view(inbound)) == Ok::<OutboundView, ProxyError>(
                outbound.deep_view(),
            ) ==> call_requires(upstream, (outbound,)),
    ensures
        match prepared(config_view(config), inbound_view(inbound)) {
            Err(error) => outcome_view(outcome) == Err::<ResponseView, ProxyError>(error),
            Ok(planned) => exists|
                outbound: OutboundRequest,
                reply: Result<UpstreamResponse, UpstreamFailure>,
            |
                outbound.deep_view() == planned && call_ensures(upstream, (outbound,), reply)
                    && outcome_view(outcome) == concluded(reply_view(reply)),
        },
{
    match prepare(config, inbound) {
        Err(error) => Err(error),
        Ok(outbound) => {
            let ghost sent = outbound;
            let reply = upstream(outbound);
            let ghost got = reply;
            let outcome = conclude(reply);
            proof {
                assert(sent.deep_view() == prepared(config_view(config), inbound_view(inbound))->Ok_0
                    && call_ensures(upstream, (sent,), got) && outcome_view(outcome) == concluded(
                    reply_view(got),
                ));
            }
            outcome
        },
    }
}

/// A request for a path under the prefix is sent to the base with the rest
/// of the path as its path, the prefix taken off once, and with the inbound
/// query as its query; where that URL cannot be expressed, nothing is sent.
pub proof fn lemma_prepared_url(base: Url, rest: Seq<char>, inbound: InboundView)
    requires
        inbound.path == API_PREFIX@ + rest,
    ensures
        match prepared(Some(base), Ok(inbound)) {
            Ok(outbound) => outbound.url == url_text(
                url_with_query(url_with_path(base, rest), inbound.query),
            ),
            Err(error) => error == ProxyError::UpstreamUnreachable(UpstreamFailure::InvalidUrl),
        },
{
    lemma_prefix_removed_once(rest);
}

/// Where the upstream cannot be reached, the client receives an error
/// response: the exchange ends with that failure, and the response that
/// answers it has a client or server error status and nothing of a relayed
/// response.
pub proof fn lemma_unreachable_upstream_is_answered(failure: UpstreamFailure)
    ensures
        concluded(Err(failure)) == Err::<ResponseView, ProxyError>(
            ProxyError::UpstreamUnreachable(failure),
        ),
        answered(concluded(Err(failure))) == failure_view(ProxyError::UpstreamUnreachable(failure)),
        400 <= answered(concluded(Err(failure))).status <= 599,
{
    lemma_failure_status_is_error(ProxyError::UpstreamUnreachable(failure));
}

/// Against an upstream that answers with the body that it was sent, the
/// client receives the body that it sent, byte for byte.
pub proof fn lemma_echo_round_trip(
    config: Option<Url>,
    inbound: InboundView,
    reply: ResponseView,
)
    requires
        prepared(config, Ok(inbound)) matches Ok(outbound) && reply.body == outbound.body,
    ensures
        concluded(Ok(reply)) matches Ok(response) && response.body == inbound.body,
        answered(concluded(Ok(reply))).body == inbound.body,
{
}

/// An exchange that got an upstream response hands its status and body on
/// unchanged.
pub proof fn lemma_status_and_body_relayed(reply: ResponseView)
    ensures
        answered(concluded(Ok(reply))).status == reply.status,
        answered(concluded(Ok(reply))).body == reply.body,
{
}

} // verus!
