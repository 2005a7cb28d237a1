use vstd::prelude::*;

verus! {

/// Why a message body could not be read to its end.
#[derive(Clone, Copy, Debug, PartialEq, Eq, Structural)]
pub enum BodyFailure {
    /// The peer stopped before the announced end of the body.
    Incomplete,
    /// The body's transfer or content coding could not be undone.
    EncodingCorrupted,
    /// The body is larger than the reader accepts.
    Overflow,
    /// The body's length could not be told.
    UnknownLength,
    /// The HTTP/2 stream carrying the body broke.
    Http2,
    /// The connection failed while the body was read.
    Io,
}

/// Why the upstream gave no usable response.
#[derive(Clone, Copy, Debug, PartialEq, Eq, Structural)]
pub enum UpstreamFailure {
    /// The target cannot be expressed as a URL that a request can carry.
    InvalidUrl,
    /// Establishing the connection took too long.
    ConnectTimeout,
    /// The connection could not be established: name resolution, refusal, TLS.
    Connect,
    /// The request could not be written.
    Send,
    /// The response head could not be parsed.
    Response,
    /// The request could not be formed as an HTTP message.
    Http,
    /// The HTTP/2 session failed.
    H2,
    /// The response took too long.
    Timeout,
    /// The connection cannot carry a tunnel.
    TunnelNotSupported,
    /// The request body could not be written.
    Body,
    /// The response body could not be read to its end.
    Payload(BodyFailure),
}

/// Everything that can go wrong in the proxy.
#[derive(Clone, Copy, Debug, PartialEq, Eq, Structural)]
pub enum ProxyError {
    /// The upstream base is no absolute URL. Raised at startup only.
    ConfigInvalid,
    /// The handler was given no configuration.
    MissingState,
    /// The upstream could not be reached or did not answer properly.
    UpstreamUnreachable(UpstreamFailure),
    /// The inbound body could not be read to its end.
    BodyReadError(BodyFailure),
}

/// The status that answers a body that could not be read.
pub open spec fn body_failure_status(failure: BodyFailure) -> u16 {
    if failure == BodyFailure::Overflow {
        413
    } else {
        400
    }
}

/// The status that answers a failed upstream call.
pub open spec fn upstream_failure_status(failure: UpstreamFailure) -> u16 {
    match failure {
        UpstreamFailure::ConnectTimeout => 504,
        UpstreamFailure::Connect => 400,
        UpstreamFailure::Payload(body) => body_failure_status(body),
        _ => 500,
    }
}

impl BodyFailure {
    /// The status that answers this failure.
    pub fn status(&self) -> (code: u16)
        ensures
            code == body_failure_status(*self),
    {
        match self {
            BodyFailure::Overflow => 413,
            _ => 400,
        }
    }
}

impl UpstreamFailure {
    /// The status that answers this failure.
    pub fn status(&self) -> (code: u16)
        ensures
            code == upstream_failure_status(*self),
    {
        match self {
            UpstreamFailure::ConnectTimeout => 504,
            UpstreamFailure::Connect => 400,
            UpstreamFailure::Payload(body) => body.status(),
            _ => 500,
        }
    }
}

impl ProxyError {
    /// The status of the response that takes the place of a relayed one.
    pub open spec fn status_of(self) -> u16 {
        match self {
            ProxyError::ConfigInvalid => 500,
            ProxyError::MissingState => 500,
            ProxyError::UpstreamUnreachable(failure) => upstream_failure_status(failure),
            ProxyError::BodyReadError(failure) => body_failure_status(failure),
        }
    }

    /// The status of the response that takes the place of a relayed one.
    pub fn status(&self) -> (code: u16)
        ensures
            code == self.status_of(),
    {
        match self {
            ProxyError::ConfigInvalid => 500,
            ProxyError::MissingState => 500,
            ProxyError::UpstreamUnreachable(failure) => failure.status(),
            ProxyError::BodyReadError(failure) => failure.status(),
        }
    }

    /// The text that the error response carries as its body.
    pub open spec fn message_of(self) -> Seq<char> {
        match self {
            ProxyError::ConfigInvalid => "upstream base is not an absolute URL"@,
            ProxyError::MissingState => "proxy configuration is missing"@,
            ProxyError::UpstreamUnreachable(_) => "upstream could not be reached"@,
            ProxyError::BodyReadError(_) => "request body could not be read"@,
        }
    }

    /// The text that the error response carries as its body.
    pub fn message(&self) -> (text: &'static str)
        ensures
            text@ == self.message_of(),
    {
        match self {
            ProxyError::ConfigInvalid => "upstream base is not an absolute URL",
            ProxyError::MissingState => "proxy configuration is missing",
            ProxyError::UpstreamUnreachable(_) => "upstream could not be reached",
            ProxyError::BodyReadError(_) => "request body could not be read",
        }
    }
}

/// Every failure is answered with a client or server error status, never with
/// a success or a redirect.
pub proof fn lemma_failure_status_is_error(error: ProxyError)
    ensures
        400 <= error.status_of() <= 599,
{
}

} // verus!
