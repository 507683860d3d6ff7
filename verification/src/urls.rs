//! URLs and percent-encoding, through the `url` and `percent-encoding`
//! crates.
//!
//! What URL parsing gives back takes a standard to state, so its results are
//! named here as functions of the text that was parsed; percent-decoding is
//! stated in full.

use vstd::prelude::*;
use vstd::utf8::{decode_utf8, encode_utf8, valid_utf8};

verus! {

/// `url::Url`, an absolute URL.
#[verifier::external_type_specification]
#[verifier::external_body]
pub struct ExUrl(url::Url);

/// `url::ParseError`, why a text is not an absolute URL.
#[verifier::external_type_specification]
#[verifier::external_body]
pub struct ExUrlParseError(url::ParseError);

/// `std::path::PathBuf`.
#[verifier::external_type_specification]
#[verifier::external_body]
pub struct ExPathBuf(std::path::PathBuf);

/// Whether `url::Url::parse` accepts the text `s` as an absolute URL.
pub uninterp spec fn url_parses(s: Seq<char>) -> bool;

/// The scheme (`url::Url::scheme`) of the URL parsed from the text `s`.
pub uninterp spec fn url_scheme(s: Seq<char>) -> Seq<char>;

/// The path (`url::Url::path`) of the URL parsed from the text `s`.
pub uninterp spec fn url_path(s: Seq<char>) -> Seq<char>;

/// The error that `url::Url::parse` gives for the text `s` when it is not
/// an absolute URL.
pub uninterp spec fn url_parse_error(s: Seq<char>) -> url::ParseError;

/// Whether `url::Url::to_file_path` finds a local file path in the URL
/// parsed from the text `s`.
pub uninterp spec fn url_has_file_path(s: Seq<char>) -> bool;

/// A URL together with the text it was parsed from.
pub struct ParsedUrl {
    url: url::Url,
    source: Ghost<Seq<char>>,
}

impl ParsedUrl {
    /// The text this URL was parsed from.
    pub closed spec fn source(&self) -> Seq<char> {
        self.source@
    }
}

/// Parses `input` as an absolute URL (`url::Url::parse`). Succeeds exactly
/// when [`url_parses`] holds of `input`, and keeps `input` as the URL's source.
#[verifier::external_body]
pub(crate) fn parse_url(input: &str) -> (r: Result<ParsedUrl, url::ParseError>)
    ensures
        r is Ok <==> url_parses(input@),
        r matches Ok(u) ==> u.source() == input@,
        r matches Err(e) ==> e == url_parse_error(input@),
{
    match url::Url::parse(input) {
        Ok(url) => Ok(ParsedUrl { url, source: Ghost(input@) }),
        Err(e) => Err(e),
    }
}

/// The scheme of `u` (`url::Url::scheme`).
#[verifier::external_body]
pub(crate) fn scheme_of(u: &ParsedUrl) -> (s: String)
    ensures
        s@ == url_scheme(u.source()),
{
    u.url.scheme().to_string()
}

/// The path of `u` (`url::Url::path`).
#[verifier::external_body]
pub(crate) fn path_of(u: &ParsedUrl) -> (s: String)
    ensures
        s@ == url_path(u.source()),
{
    u.url.path().to_string()
}

/// A local file path together with the text of the `file:` URL it was
/// found in.
pub struct LocalFile {
    path: std::path::PathBuf,
    url: Ghost<Seq<char>>,
}

impl LocalFile {
    /// The text of the URL whose file path this is.
    pub closed spec fn url(&self) -> Seq<char> {
        self.url@
    }

    /// The file path.
    pub fn path(&self) -> &std::path::PathBuf {
        &self.path
    }

    /// The file path, taken out.
    pub fn into_path(self) -> std::path::PathBuf {
        self.path
    }
}

/// The local file path that `u` names (`url::Url::to_file_path`), if any,
/// kept with the text `u` was parsed from.
#[verifier::external_body]
pub(crate) fn file_path_of(u: &ParsedUrl) -> (p: Option<LocalFile>)
    ensures
        p is Some <==> url_has_file_path(u.source()),
        p matches Some(f) ==> f.url() == u.source(),
{
    match u.url.to_file_path() {
        Ok(path) => Some(LocalFile { path, url: Ghost(u.source@) }),
        Err(_) => None,
    }
}

/// The value of a hexadecimal digit byte (either case).
pub open spec fn hex_value(b: u8) -> Option<int> {
    if 0x30 <= b <= 0x39 {
        Some(b - 0x30)
    } else if 0x41 <= b <= 0x46 {
        Some(b - 0x41 + 10)
    } else if 0x61 <= b <= 0x66 {
        Some(b - 0x61 + 10)
    } else {
        None
    }
}

/// The bytes `b` with every `%` followed by two hexadecimal digits replaced
/// by the byte those digits spell; every other byte is kept.
pub open spec fn percent_decode_bytes(b: Seq<u8>) -> Seq<u8>
    decreases b.len(),
{
    if b.len() == 0 {
        seq![]
    } else if b[0] == 0x25 && b.len() >= 3 && hex_value(b[1]) is Some && hex_value(b[2]) is Some {
        seq![(hex_value(b[1])->0 * 16 + hex_value(b[2])->0) as u8] + percent_decode_bytes(
            b.subrange(3, b.len() as int),
        )
    } else {
        seq![b[0]] + percent_decode_bytes(b.drop_first())
    }
}

/// The text `s` percent-decoded, when the decoded bytes are UTF-8.
pub open spec fn percent_decoded(s: Seq<char>) -> Option<Seq<char>> {
    let bytes = percent_decode_bytes(encode_utf8(s));
    if valid_utf8(bytes) {
        Some(decode_utf8(bytes))
    } else {
        None
    }
}

/// Percent-decodes `s` and reads the result as UTF-8
/// (`percent_encoding::percent_decode_str` then `decode_utf8`); `None` when
/// the decoded bytes are not UTF-8.
#[verifier::external_body]
pub(crate) fn percent_decode_utf8(s: &str) -> (r: Option<String>)
    ensures
        r is Some <==> percent_decoded(s@) is Some,
        r matches Some(d) ==> d@ == percent_decoded(s@)->0,
{
    match percent_encoding::percent_decode_str(s).decode_utf8() {
        Ok(decoded) => Some(decoded.to_string()),
        Err(_) => None,
    }
}

} // verus!
