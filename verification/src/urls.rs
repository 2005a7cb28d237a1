//! What is taken on trust of the `url` crate.
//!
//! A `Url` is opaque here. Each call that the library makes into the crate
//! has a name for what it returns; nothing is claimed of a call but that its
//! result is what its name says of its arguments. The names take the URL
//! itself, not its text: two URLs with the same text can differ in where
//! they hold their query and fragment to begin, and a call then treats them
//! differently.

use vstd::prelude::*;
use vstd::utf8::encode_utf8;
use url::ParseError;
use url::Url;

verus! {

/// `url::Url`, a parsed URL. Nothing inside it is visible here.
#[verifier::external_type_specification]
#[verifier::external_body]
pub struct ExUrl(Url);

/// `url::ParseError`, the reason for which `Url::parse` rejects an input.
#[verifier::external_type_specification]
#[verifier::external_body]
pub struct ExParseError(ParseError);

/// The serialization of a URL: the text that `Url::as_str` hands out.
pub uninterp spec fn url_text(url: Url) -> Seq<char>;

/// What `Url::parse` makes of an input: the URL that it reads from it, or
/// nothing where the input is no absolute URL.
pub uninterp spec fn parsed_url(input: Seq<char>) -> Option<Url>;

/// The URL that `Url::set_path` leaves, given the URL before the call and the
/// path that the call was handed.
pub uninterp spec fn url_with_path(url: Url, path: Seq<char>) -> Url;

/// The URL that `Url::set_query` leaves, given the URL before the call and
/// the query that the call was handed.
pub uninterp spec fn url_with_query(url: Url, query: Option<Seq<char>>) -> Url;

/// `Url::parse`. Trusted: it returns for every input, accepts or rejects an
/// input by its text alone, and reads the same URL from the same text.
pub assume_specification[ Url::parse ](input: &str) -> (parsed: Result<Url, ParseError>)
    ensures
        match parsed {
            Ok(url) => parsed_url(input@) == Some(url),
            Err(_) => parsed_url(input@) is None,
        },
;

/// `Url::as_str`. Trusted: it returns the serialization, the `String` that
/// the URL keeps.
pub assume_specification<'a>[ Url::as_str ](url: &'a Url) -> (text: &'a str)
    ensures
        text@ == url_text(*url),
;

/// `<Url as Clone>::clone`, which `derive` wrote. Trusted: the copy is the
/// same URL.
pub assume_specification[ <Url as Clone>::clone ](url: &Url) -> (copy: Url)
    ensures
        copy == *url,
;

/// `Url::set_path`. Trusted: the URL that it leaves depends on the URL before
/// the call and on the path alone.
///
/// The call keeps byte offsets into the serialization as `u32` and panics
/// where one does not fit. It writes the path after the part of the old
/// serialization that comes before the old path, with at most three bytes
/// for each byte of the path and a few slashes, and then what followed the
/// old path. With the old serialization and the path both under 2^28 bytes,
/// the new serialization is under 2^31 bytes and every offset fits.
pub assume_specification[ Url::set_path ](url: &mut Url, path: &str)
    requires
        encode_utf8(url_text(*old(url))).len() <= 0x0fff_ffff,
        encode_utf8(path@).len() <= 0x0fff_ffff,
    ensures
        *final(url) == url_with_path(*old(url), path@),
;

/// `Url::set_query`. Trusted: the URL that it leaves depends on the URL
/// before the call and on the query alone.
///
/// The call keeps byte offsets as `Url::set_path` does. It writes a question
/// mark and the query, with at most three bytes for each byte of the query,
/// in the place of the old query and before the fragment. With the old
/// serialization and the query both under 2^28 bytes, every offset fits.
pub assume_specification[ Url::set_query ](url: &mut Url, query: Option<&str>)
    requires
        encode_utf8(url_text(*old(url))).len() <= 0x0fff_ffff,
        query matches Some(text) ==> encode_utf8(text@).len() <= 0x0fff_ffff,
    ensures
        *final(url) == url_with_query(
            *old(url),
            match query {
                Some(text) => Some(text@),
                None => None,
            },
        ),
;

} // verus!
