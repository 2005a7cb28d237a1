use vstd::prelude::*;
use vstd::utf8::encode_utf8;
use url::Url;
use crate::error::ProxyError;
use crate::urls::parsed_url;
use crate::urls::url_text;
use crate::urls::url_with_path;
use crate::urls::url_with_query;

verus! {

/// The most bytes that the text of a URL, and a path or a query to write
/// into it, may have. A URL keeps offsets into its text in 32 bits; under
/// this bound no offset into the changed text can be too large.
pub const PIECE_LIMIT: usize = 0x0fff_ffff;

/// The prefix under which inbound requests are relayed.
pub const API_PREFIX: &'static str = "/api";

/// Whether `path` begins with the prefix, letter for letter. What follows
/// the prefix is not looked at: no segment boundary is asked for.
pub open spec fn has_api_prefix(path: Seq<char>) -> bool {
    path.len() >= API_PREFIX@.len() && path.subrange(0, API_PREFIX@.len() as int)
        == API_PREFIX@
}

/// The path that the upstream is asked for: the inbound path without its
/// leading prefix, taken off once, or the inbound path itself where it does
/// not begin with the prefix.
pub open spec fn upstream_path(path: Seq<char>) -> Seq<char> {
    if has_api_prefix(path) {
        path.subrange(API_PREFIX@.len() as int, path.len() as int)
    } else {
        path
    }
}

/// Whether the text of a URL and a piece to write into it are both within
/// `PIECE_LIMIT`.
pub open spec fn within_limit(url: Url, piece: Seq<char>) -> bool {
    encode_utf8(url_text(url)).len() <= PIECE_LIMIT && encode_utf8(piece).len() <= PIECE_LIMIT
}

/// The text of a query, or the empty text where there is none.
pub open spec fn query_text(query: Option<Seq<char>>) -> Seq<char> {
    match query {
        Some(text) => text,
        None => Seq::empty(),
    }
}

/// The base with its path replaced by `upstream_path(path)`.
pub open spec fn moved(base: Url, path: Seq<char>) -> Url {
    url_with_path(base, upstream_path(path))
}

/// The upstream URL for an inbound path and query: the text of the base
/// with its path replaced by `upstream_path(path)` and its query replaced by
/// `query`. There is none where a text on the way is beyond `PIECE_LIMIT`.
pub open spec fn target_text(base: Url, path: Seq<char>, query: Option<Seq<char>>) -> Option<
    Seq<char>,
> {
    if within_limit(base, upstream_path(path)) && within_limit(
        moved(base, path),
        query_text(query),
    ) {
        Some(url_text(url_with_query(moved(base, path), query)))
    } else {
        None
    }
}

/// The view of a query that may be absent.
pub open spec fn text_of(query: Option<&str>) -> Option<Seq<char>> {
    match query {
        Some(text) => Some(text@),
        None => None,
    }
}

/// The length of a text in bytes.
fn byte_len(text: &str) -> (n: usize)
    ensures
        n == encode_utf8(text@).len(),
{
    text.as_bytes().len()
}

/// The inbound path without its leading prefix.
pub fn strip_api_prefix(path: &str) -> (rest: &str)
    ensures
        rest@ == upstream_path(path@),
{
    proof {
        reveal_strlit("/api");
    }
    let n: usize = path.unicode_len();
    if n >= 4 && path.get_char(0) == '/' && path.get_char(1) == 'a' && path.get_char(2) == 'p'
        && path.get_char(3) == 'i' {
        proof {
            assert(path@.subrange(0, 4) =~= API_PREFIX@);
        }
        path.substring_char(4, n)
    } else {
        proof {
            if n >= 4 {
                let head = path@.subrange(0, 4);
                assert(head[0] == path@[0] && head[1] == path@[1] && head[2] == path@[2]
                    && head[3] == path@[3]);
            }
        }
        path
    }
}

/// The configuration that every request handler shares: the upstream base
/// URL. It is made once and never changed.
pub struct ProxyConfig {
    base: Url,
}

impl ProxyConfig {
    /// The upstream base URL.
    pub closed spec fn base_url(&self) -> Url {
        self.base
    }

    /// Reads the upstream base. Fails on what is no absolute URL, and on
    /// nothing else.
    pub fn new(base: &str) -> (made: Result<ProxyConfig, ProxyError>)
        ensures
            match made {
                Ok(config) => parsed_url(base@) == Some(config.base_url()),
                Err(error) => error == ProxyError::ConfigInvalid && parsed_url(base@) is None,
            },
    {
        match Url::parse(base) {
            Ok(url) => Ok(ProxyConfig { base: url }),
            Err(_) => Err(ProxyError::ConfigInvalid),
        }
    }

    /// The serialization of the upstream base URL.
    pub fn base(&self) -> (text: &str)
        ensures
            text@ == url_text(self.base_url()),
    {
        self.base.as_str()
    }

    /// The upstream URL for an inbound path and query.
    pub fn target(&self, path: &str, query: Option<&str>) -> (made: Option<String>)
        ensures
            match made {
                Some(text) => target_text(self.base_url(), path@, text_of(query)) == Some(text@),
                None => target_text(self.base_url(), path@, text_of(query)) is None,
            },
    {
        let rest = strip_api_prefix(path);
        if byte_len(self.base.as_str()) > PIECE_LIMIT || byte_len(rest) > PIECE_LIMIT {
            return None;
        }
        let mut url = self.base.clone();
        url.set_path(rest);
        if byte_len(url.as_str()) > PIECE_LIMIT {
            return None;
        }
        match query {
            Some(text) => {
                if byte_len(text) > PIECE_LIMIT {
                    return None;
                }
            },
            None => {
                assert(encode_utf8(Seq::<char>::empty()).len() == 0);
            },
        }
        url.set_query(query);
        Some(url.as_str().to_owned())
    }
}

/// A path made of the prefix and a rest is asked of the upstream as that
/// rest, whatever the rest holds: the prefix is taken off once, and a rest
/// that begins with the prefix again keeps it.
pub proof fn lemma_prefix_removed_once(rest: Seq<char>)
    ensures
        upstream_path(API_PREFIX@ + rest) == rest,
{
    let path = API_PREFIX@ + rest;
    let n = API_PREFIX@.len() as int;
    assert(path.subrange(0, n) =~= API_PREFIX@);
    assert(path.subrange(n, path.len() as int) =~= rest);
}

/// For a path under the prefix, the upstream URL is the base with the rest
/// of the path as its path and with the inbound query, handed on as it came,
/// as its query.
pub proof fn lemma_target_under_prefix(base: Url, rest: Seq<char>, query: Option<Seq<char>>)
    requires
        target_text(base, API_PREFIX@ + rest, query) is Some,
    ensures
        target_text(base, API_PREFIX@ + rest, query) == Some(
            url_text(url_with_query(url_with_path(base, rest), query)),
        ),
{
    lemma_prefix_removed_once(rest);
}

} // verus!
