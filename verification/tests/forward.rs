use reverse_proxy::forward::build_outbound;
use reverse_proxy::forward::forwarded_headers;
use reverse_proxy::forward::InboundRequest;
use reverse_proxy::header::values;
use reverse_proxy::header::Header;

const AGENT: &str = "Android com.kuangxiangciweimao.novel";

fn field(name: &str, value: &str) -> Header {
    Header::new(name, value.as_bytes())
}

fn request(headers: Vec<Header>, client_ip: Option<&str>) -> InboundRequest {
    InboundRequest {
        method: "GET".to_string(),
        path: "/api/x".to_string(),
        query: None,
        headers,
        body: Vec::new(),
        client_ip: client_ip.map(|text| text.to_string()),
    }
}

#[test]
fn agent_is_written_where_none_came() {
    let fields = forwarded_headers(&Vec::new(), None);
    assert_eq!(fields, vec![field("user-agent", AGENT)]);
}

#[test]
fn agent_takes_the_place_of_the_inbound_one() {
    let inbound = vec![field("User-Agent", "curl/8.0"), field("Accept", "*/*")];
    let fields = forwarded_headers(&inbound, None);
    assert_eq!(fields, vec![field("Accept", "*/*"), field("user-agent", AGENT)]);
    assert_eq!(values(&fields, "User-Agent"), vec![AGENT.as_bytes().to_vec()]);
}

#[test]
fn agent_takes_the_place_of_every_inbound_one() {
    let inbound = vec![
        field("user-agent", "one"),
        field("Host", "localhost:8000"),
        field("USER-AGENT", "two"),
        field("User-Agent", AGENT),
    ];
    let fields = forwarded_headers(&inbound, None);
    assert_eq!(fields, vec![field("Host", "localhost:8000"), field("user-agent", AGENT)]);
}

#[test]
fn peer_is_told_where_it_is_known() {
    let inbound = vec![field("Accept", "*/*")];
    let fields = forwarded_headers(&inbound, Some("203.0.113.7"));
    assert_eq!(
        fields,
        vec![
            field("Accept", "*/*"),
            field("x-forwarded-for", "203.0.113.7"),
            field("user-agent", AGENT),
        ]
    );
}

#[test]
fn peer_in_the_long_form_is_told_as_it_is_written() {
    let fields = forwarded_headers(&Vec::new(), Some("2001:db8::1"));
    assert_eq!(values(&fields, "X-Forwarded-For"), vec![b"2001:db8::1".to_vec()]);
}

#[test]
fn peer_comes_after_the_addresses_that_came() {
    let inbound = vec![
        field("X-Forwarded-For", "198.51.100.1"),
        field("Accept", "*/*"),
        field("x-forwarded-for", "198.51.100.2"),
    ];
    let fields = forwarded_headers(&inbound, Some("203.0.113.7"));
    assert_eq!(
        values(&fields, "x-forwarded-for"),
        vec![b"198.51.100.1".to_vec(), b"198.51.100.2".to_vec(), b"203.0.113.7".to_vec()]
    );
}

#[test]
fn peer_unknown_adds_no_field() {
    let inbound = vec![field("Accept", "*/*")];
    let fields = forwarded_headers(&inbound, None);
    assert_eq!(values(&fields, "x-forwarded-for"), Vec::<Vec<u8>>::new());
    assert_eq!(fields, vec![field("Accept", "*/*"), field("user-agent", AGENT)]);
}

#[test]
fn peer_without_text_adds_no_field() {
    let fields = forwarded_headers(&Vec::new(), Some(""));
    assert_eq!(fields, vec![field("user-agent", AGENT)]);
}

#[test]
fn peer_unknown_keeps_the_addresses_that_came() {
    let inbound = vec![field("X-Forwarded-For", "198.51.100.1")];
    let fields = forwarded_headers(&inbound, None);
    assert_eq!(values(&fields, "x-forwarded-for"), vec![b"198.51.100.1".to_vec()]);
}

#[test]
fn other_fields_go_out_as_they_came() {
    let inbound = vec![
        field("Host", "localhost:8000"),
        field("Cookie", "a=1"),
        field("Connection", "keep-alive"),
        field("Cookie", "b=2"),
        Header::new("x-raw", &[0xfe, 0xff]),
    ];
    let fields = forwarded_headers(&inbound, Some("10.0.0.1"));
    assert_eq!(values(&fields, "host"), vec![b"localhost:8000".to_vec()]);
    assert_eq!(values(&fields, "cookie"), vec![b"a=1".to_vec(), b"b=2".to_vec()]);
    assert_eq!(values(&fields, "connection"), vec![b"keep-alive".to_vec()]);
    assert_eq!(values(&fields, "x-raw"), vec![vec![0xfe, 0xff]]);
    assert_eq!(fields.len(), 7);
}

#[test]
fn outbound_has_the_method_url_and_body() {
    let mut inbound = request(vec![field("Content-Type", "application/json")], Some("10.0.0.1"));
    inbound.method = "POST".to_string();
    inbound.body = b"{\"id\":5}".to_vec();
    let outbound = build_outbound("https://app.hbooker.com/x".to_string(), inbound);
    assert_eq!(outbound.method, "POST");
    assert_eq!(outbound.url, "https://app.hbooker.com/x");
    assert_eq!(outbound.body, b"{\"id\":5}".to_vec());
    assert_eq!(
        outbound.headers,
        vec![
            field("Content-Type", "application/json"),
            field("x-forwarded-for", "10.0.0.1"),
            field("user-agent", AGENT),
        ]
    );
}

#[test]
fn outbound_keeps_a_body_that_is_no_text() {
    let mut inbound = request(Vec::new(), None);
    inbound.method = "PUT".to_string();
    inbound.body = vec![0x00, 0xff, 0x10, 0x80];
    let outbound = build_outbound("https://app.hbooker.com/".to_string(), inbound);
    assert_eq!(outbound.body, vec![0x00, 0xff, 0x10, 0x80]);
}

#[test]
fn outbound_of_a_request_without_peer() {
    let outbound = build_outbound("http://127.0.0.1:9000/x".to_string(), request(Vec::new(), None));
    assert_eq!(outbound.method, "GET");
    assert_eq!(outbound.headers, vec![field("user-agent", AGENT)]);
    assert_eq!(outbound.body, Vec::<u8>::new());
}
