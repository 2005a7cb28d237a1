use vstd::prelude::*;
use vstd::utf8::encode_utf8;
use vstd::utf8::is_ascii_chars_encode_utf8;
use crate::header::Header;
use crate::header::HeaderView;
use crate::header::lemma_names_match_reflexive;
use crate::header::lemma_names_match_symmetric;
use crate::header::lemma_not_named_has_none;
use crate::header::lemma_not_named_keeps_others;
use crate::header::lemma_values_of_push;
use crate::header::names_match;
use crate::header::not_named;
use crate::header::values_of;
use crate::header::without;

verus! {

/// The content of an inbound request.
pub struct InboundView {
    pub method: Seq<char>,
    pub path: Seq<char>,
    pub query: Option<Seq<char>>,
    pub headers: Seq<HeaderView>,
    pub body: Seq<u8>,
    pub client_ip: Option<Seq<char>>,
}

/// A request as the server took it from a client, its body read to the end.
#[derive(Debug, PartialEq, Eq)]
pub struct InboundRequest {
    pub method: String,
    /// The path of the request target, as it came.
    pub path: String,
    /// The query of the request target, without its question mark.
    pub query: Option<String>,
    pub headers: Vec<Header>,
    pub body: Vec<u8>,
    /// The address of the client in its textual form, where the server could
    /// tell it.
    pub client_ip: Option<String>,
}

impl DeepView for InboundRequest {
    type V = InboundView;

    open spec fn deep_view(&self) -> InboundView {
        InboundView {
            method: self.method@,
            path: self.path@,
            query: match self.query {
                Some(text) => Some(text@),
                None => None,
            },
            headers: self.headers.deep_view(),
            body: self.body@,
            client_ip: match self.client_ip {
                Some(text) => Some(text@),
                None => None,
            },
        }
    }
}

/// The content of an outbound request.
pub struct OutboundView {
    pub method: Seq<char>,
    pub url: Seq<char>,
    pub headers: Seq<HeaderView>,
    pub body: Seq<u8>,
}

/// A request as it is to be sent to the upstream.
#[derive(Debug, PartialEq, Eq)]
pub struct OutboundRequest {
    pub method: String,
    /// The absolute URL of the upstream resource.
    pub url: String,
    pub headers: Vec<Header>,
    pub body: Vec<u8>,
}

impl DeepView for OutboundRequest {
    type V = OutboundView;

    open spec fn deep_view(&self) -> OutboundView {
        OutboundView {
            method: self.method@,
            url: self.url@,
            headers: self.headers.deep_view(),
            body: self.body@,
        }
    }
}

/// The name of the field that tells the upstream who asks.
pub const USER_AGENT: &'static str = "user-agent";

/// The one user agent that the upstream is told of.
pub const FIXED_AGENT: &'static str = "Android com.kuangxiangciweimao.novel";

/// The name of the field that tells the upstream the client's address.
pub const FORWARDED_FOR: &'static str = "x-forwarded-for";

/// Whether the client's address is known: it is given and not empty.
pub open spec fn peer_known(client_ip: Option<Seq<char>>) -> bool {
    client_ip matches Some(text) && text.len() > 0
}

/// The field that carries the fixed user agent.
pub open spec fn user_agent_field() -> HeaderView {
    HeaderView { name: USER_AGENT@, value: encode_utf8(FIXED_AGENT@) }
}

/// The field that carries the client's address.
pub open spec fn forwarded_for_field(address: Seq<char>) -> HeaderView {
    HeaderView { name: FORWARDED_FOR@, value: encode_utf8(address) }
}

/// The fields of the outbound request: the inbound ones in their order
/// without any user agent, then the client's address where it is known, then
/// the fixed user agent.
pub open spec fn outbound_headers(inbound: Seq<HeaderView>, client_ip: Option<Seq<char>>) -> Seq<
    HeaderView,
> {
    let kept = not_named(inbound, USER_AGENT@);
    let told = if peer_known(client_ip) {
        kept.push(forwarded_for_field(client_ip->0))
    } else {
        kept
    };
    told.push(user_agent_field())
}

/// The outbound request for an inbound one and the upstream URL resolved for
/// it: the same method and body, the fields of `outbound_headers`.
pub open spec fn outbound_of(url: Seq<char>, inbound: InboundView) -> OutboundView {
    OutboundView {
        method: inbound.method,
        url,
        headers: outbound_headers(inbound.headers, inbound.client_ip),
        body: inbound.body,
    }
}

/// The fields of the outbound request for the inbound fields and the
/// client's address.
pub fn forwarded_headers(inbound: &Vec<Header>, client_ip: Option<&str>) -> (fields: Vec<Header>)
    ensures
        fields.deep_view() == outbound_headers(
            inbound.deep_view(),
            match client_ip {
                Some(text) => Some(text@),
                None => None,
            },
        ),
{
    let mut fields = without(inbound, USER_AGENT);
    match client_ip {
        Some(address) => {
            if !address.is_empty() {
                let ghost before = fields.deep_view();
                let field = Header::new(FORWARDED_FOR, address.as_bytes());
                fields.push(field);
                assert(fields.deep_view() =~= before.push(forwarded_for_field(address@)));
            }
        },
        None => {},
    }
    let ghost before = fields.deep_view();
    let agent = Header::new(USER_AGENT, FIXED_AGENT.as_bytes());
    fields.push(agent);
    assert(fields.deep_view() =~= before.push(user_agent_field()));
    fields
}

/// The outbound request for an inbound one and the upstream URL resolved for
/// it.
pub fn build_outbound(url: String, inbound: InboundRequest) -> (outbound: OutboundRequest)
    ensures
        outbound.deep_view() == outbound_of(url@, inbound.deep_view()),
{
    let client_ip = match &inbound.client_ip {
        Some(text) => Some(text.as_str()),
        None => None,
    };
    let headers = forwarded_headers(&inbound.headers, client_ip);
    OutboundRequest { method: inbound.method, url, headers, body: inbound.body }
}

/// The two names that the forwarder writes denote different fields.
pub proof fn lemma_written_names_differ()
    ensures
        !names_match(FORWARDED_FOR@, USER_AGENT@),
        !names_match(USER_AGENT@, FORWARDED_FOR@),
{
    reveal_strlit("x-forwarded-for");
    reveal_strlit("user-agent");
    is_ascii_chars_encode_utf8("x-forwarded-for"@);
    is_ascii_chars_encode_utf8("user-agent"@);
}

/// The upstream is told the fixed user agent and no other: whatever the
/// inbound request says of its user agent, and however often, the outbound
/// request has one value under that name, the fixed one.
pub proof fn lemma_user_agent_is_fixed(inbound: Seq<HeaderView>, client_ip: Option<Seq<char>>)
    ensures
        values_of(outbound_headers(inbound, client_ip), USER_AGENT@) == seq![
            encode_utf8(FIXED_AGENT@),
        ],
{
    let agent = USER_AGENT@;
    let kept = not_named(inbound, agent);
    lemma_names_match_reflexive(agent);
    lemma_not_named_has_none(inbound, agent, agent);
    lemma_written_names_differ();
    let told = if peer_known(client_ip) {
        kept.push(forwarded_for_field(client_ip->0))
    } else {
        kept
    };
    if peer_known(client_ip) {
        lemma_values_of_push(kept, forwarded_for_field(client_ip->0), agent);
    }
    lemma_values_of_push(told, user_agent_field(), agent);
    assert(values_of(told, agent).push(user_agent_field().value) =~= seq![
        encode_utf8(FIXED_AGENT@),
    ]);
}

/// Where the client's address is known, the outbound request carries it as
/// the last value of the forwarded-for field, after those that the inbound
/// request brought; the value is the address as text and is never empty.
pub proof fn lemma_forwarded_for_carries_peer(inbound: Seq<HeaderView>, client_ip: Option<Seq<char>>)
    requires
        peer_known(client_ip),
    ensures
        values_of(outbound_headers(inbound, client_ip), FORWARDED_FOR@) == values_of(
            inbound,
            FORWARDED_FOR@,
        ).push(encode_utf8(client_ip->0)),
        encode_utf8(client_ip->0).len() > 0,
{
    let agent = USER_AGENT@;
    let peer = FORWARDED_FOR@;
    let kept = not_named(inbound, agent);
    lemma_written_names_differ();
    lemma_not_named_keeps_others(inbound, agent, peer);
    lemma_names_match_reflexive(peer);
    lemma_values_of_push(kept, forwarded_for_field(client_ip->0), peer);
    lemma_values_of_push(kept.push(forwarded_for_field(client_ip->0)), user_agent_field(), peer);
}

/// Where the client's address is not known, the forwarder adds nothing under
/// the forwarded-for name: the outbound request has the values that the
/// inbound request brought, and none where it brought none.
pub proof fn lemma_forwarded_for_untouched_without_peer(
    inbound: Seq<HeaderView>,
    client_ip: Option<Seq<char>>,
)
    requires
        !peer_known(client_ip),
    ensures
        values_of(outbound_headers(inbound, client_ip), FORWARDED_FOR@) == values_of(
            inbound,
            FORWARDED_FOR@,
        ),
{
    let agent = USER_AGENT@;
    let peer = FORWARDED_FOR@;
    let kept = not_named(inbound, agent);
    lemma_written_names_differ();
    lemma_not_named_keeps_others(inbound, agent, peer);
    lemma_values_of_push(kept, user_agent_field(), peer);
}

/// A request that comes without a forwarded-for field from a client whose
/// address is not known goes out without one.
pub proof fn lemma_forwarded_for_absent_without_peer(
    inbound: Seq<HeaderView>,
    client_ip: Option<Seq<char>>,
)
    requires
        !peer_known(client_ip),
        values_of(inbound, FORWARDED_FOR@).len() == 0,
    ensures
        values_of(outbound_headers(inbound, client_ip), FORWARDED_FOR@).len() == 0,
{
    lemma_forwarded_for_untouched_without_peer(inbound, client_ip);
}

/// Every inbound field of any other name goes out as it came: with the same
/// values, in the same order.
pub proof fn lemma_other_fields_forwarded(
    inbound: Seq<HeaderView>,
    client_ip: Option<Seq<char>>,
    name: Seq<char>,
)
    requires
        !names_match(name, USER_AGENT@),
        !names_match(name, FORWARDED_FOR@),
    ensures
        values_of(outbound_headers(inbound, client_ip), name) == values_of(inbound, name),
{
    let agent = USER_AGENT@;
    let peer = FORWARDED_FOR@;
    let kept = not_named(inbound, agent);
    lemma_not_named_keeps_others(inbound, agent, name);
    if names_match(agent, name) {
        lemma_names_match_symmetric(agent, name);
    }
    if names_match(peer, name) {
        lemma_names_match_symmetric(peer, name);
    }
    let told = if peer_known(client_ip) {
        kept.push(forwarded_for_field(client_ip->0))
    } else {
        kept
    };
    if peer_known(client_ip) {
        lemma_values_of_push(kept, forwarded_for_field(client_ip->0), name);
    }
    lemma_values_of_push(told, user_agent_field(), name);
}

} // verus!
