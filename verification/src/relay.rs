use vstd::prelude::*;
use vstd::utf8::encode_utf8;
use crate::error::ProxyError;
use crate::header::but_for;
use crate::header::Header;
use crate::header::HeaderView;
use crate::header::lemma_but_for_commutes;
use crate::header::lemma_names_match_reflexive;
use crate::header::lemma_not_named_has_none;
use crate::header::lemma_not_named_keeps_others;
use crate::header::lemma_not_named_leaves_none;
use crate::header::names_match;
use crate::header::not_named;
use crate::header::values_of;
use crate::header::without;

verus! {

/// The content of a response.
pub struct ResponseView {
    pub status: u16,
    pub headers: Seq<HeaderView>,
    pub body: Seq<u8>,
}

/// A response as the upstream gave it, its body read to the end.
#[derive(Debug, PartialEq, Eq)]
pub struct UpstreamResponse {
    pub status: u16,
    pub headers: Vec<Header>,
    pub body: Vec<u8>,
}

impl DeepView for UpstreamResponse {
    type V = ResponseView;

    open spec fn deep_view(&self) -> ResponseView {
        ResponseView { status: self.status, headers: self.headers.deep_view(), body: self.body@ }
    }
}

/// A response as the client is given it.
#[derive(Debug, PartialEq, Eq)]
pub struct ProxiedResponse {
    pub status: u16,
    pub headers: Vec<Header>,
    pub body: Vec<u8>,
}

impl DeepView for ProxiedResponse {
    type V = ResponseView;

    open spec fn deep_view(&self) -> ResponseView {
        ResponseView { status: self.status, headers: self.headers.deep_view(), body: self.body@ }
    }
}

/// The name of the field that speaks of one connection only, and so is not
/// handed on from the upstream's connection to the client's.
pub const CONNECTION: &'static str = "connection";

/// The name of the field that tells what kind of body a response carries.
pub const CONTENT_TYPE: &'static str = "content-type";

/// The kind of body that an error response carries.
pub const PLAIN_TEXT: &'static str = "text/plain; charset=utf-8";

/// The response that the client is given for an upstream response: the same
/// status and body, the same fields in their order but for those called
/// `connection_name`.
pub open spec fn relayed(upstream: ResponseView) -> ResponseView {
    ResponseView {
        status: upstream.status,
        headers: not_named(upstream.headers, CONNECTION@),
        body: upstream.body,
    }
}

/// The response that the client is given for an upstream response.
pub fn relay(upstream: UpstreamResponse) -> (proxied: ProxiedResponse)
    ensures
        proxied.deep_view() == relayed(upstream.deep_view()),
{
    let headers = without(&upstream.headers, CONNECTION);
    ProxiedResponse { status: upstream.status, headers, body: upstream.body }
}

/// The response that takes the place of a relayed one after a failure: the
/// status of the failure, its message as plain text, and nothing of any
/// upstream response.
pub open spec fn failure_view(error: ProxyError) -> ResponseView {
    ResponseView {
        status: error.status_of(),
        headers: seq![HeaderView { name: CONTENT_TYPE@, value: encode_utf8(PLAIN_TEXT@) }],
        body: encode_utf8(error.message_of()),
    }
}

/// The response that takes the place of a relayed one after a failure.
pub fn failure_response(error: ProxyError) -> (proxied: ProxiedResponse)
    ensures
        proxied.deep_view() == failure_view(error),
{
    let mut headers: Vec<Header> = Vec::new();
    headers.push(Header::new(CONTENT_TYPE, PLAIN_TEXT.as_bytes()));
    assert(headers.deep_view() =~= failure_view(error).headers);
    ProxiedResponse {
        status: error.status(),
        headers,
        body: vstd::slice::slice_to_vec(error.message().as_bytes()),
    }
}

/// The client is never given a connection field: whatever the upstream
/// sent, no field of the relayed response is called so, in any spelling, and
/// so the relayed response has no value under that name.
pub proof fn lemma_relayed_has_no_connection(upstream: ResponseView)
    ensures
        forall|i: int|
            0 <= i < relayed(upstream).headers.len() ==> !names_match(
                (#[trigger] relayed(upstream).headers[i]).name,
                CONNECTION@,
            ),
        values_of(relayed(upstream).headers, CONNECTION@) == Seq::<Seq<u8>>::empty(),
{
    let name = CONNECTION@;
    assert forall|i: int| 0 <= i < relayed(upstream).headers.len() implies !names_match(
        (#[trigger] relayed(upstream).headers[i]).name,
        name,
    ) by {
        lemma_not_named_leaves_none(upstream.headers, name, i);
    }
    lemma_names_match_reflexive(name);
    lemma_not_named_has_none(upstream.headers, name, name);
}

/// The client is given every other field as the upstream sent it: under any
/// name that is not the connection field's, the relayed response has the
/// upstream's values in their order.
pub proof fn lemma_relayed_keeps_others(upstream: ResponseView, name: Seq<char>)
    requires
        !names_match(name, CONNECTION@),
    ensures
        values_of(relayed(upstream).headers, name) == values_of(upstream.headers, name),
{
    lemma_not_named_keeps_others(upstream.headers, CONNECTION@, name);
}

/// Two upstream responses that agree in status and body, and in their
/// fields but for those that `ignored` picks, are relayed as responses that
/// agree in the same way. With the names that the transport fills in by
/// itself, such as the date, this is what asking the same of an unchanged
/// upstream twice comes to; with no name picked, the two relayed responses
/// are the same.
pub proof fn lemma_relay_agrees_but_for(
    first: ResponseView,
    second: ResponseView,
    ignored: spec_fn(Seq<char>) -> bool,
)
    requires
        first.status == second.status,
        first.body == second.body,
        but_for(first.headers, ignored) == but_for(second.headers, ignored),
    ensures
        relayed(first).status == relayed(second).status,
        relayed(first).body == relayed(second).body,
        but_for(relayed(first).headers, ignored) == but_for(relayed(second).headers, ignored),
{
    lemma_but_for_commutes(first.headers, CONNECTION@, ignored);
    lemma_but_for_commutes(second.headers, CONNECTION@, ignored);
}

} // verus!
