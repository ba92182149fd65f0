//! URLs: parsing and joining through the `url` crate, percent-encoding
//! through the `urlencoding` crate.
use vstd::prelude::*;

verus! {

/// What the launcher reads of a parsed URL.
#[derive(Debug, Clone)]
pub struct UrlParts {
    /// The serialization of the URL (`Url::as_str`).
    pub href: String,
    pub scheme: String,
    pub host: Option<String>,
    pub port: Option<u16>,
}

pub struct UrlPartsView {
    pub href: Seq<char>,
    pub scheme: Seq<char>,
    pub host: Option<Seq<char>>,
    pub port: Option<u16>,
}

pub open spec fn opt_text(o: Option<String>) -> Option<Seq<char>> {
    match o {
        Some(s) => Some(s@),
        None => None,
    }
}

impl View for UrlParts {
    type V = UrlPartsView;

    open spec fn view(&self) -> UrlPartsView {
        UrlPartsView { href: self.href@, scheme: self.scheme@, host: opt_text(self.host), port: self.port }
    }
}

impl UrlParts {
    /// The serialization of the URL.
    pub fn as_str(&self) -> (s: &str)
        ensures
            s@ == self.href@,
    {
        self.href.as_str()
    }
}

pub open spec fn parts_result(r: Result<UrlParts, String>) -> Result<UrlPartsView, Seq<char>> {
    match r {
        Ok(u) => Ok(u@),
        Err(m) => Err(m@),
    }
}

/// What `url::Url::parse` makes of a text: the URL's parts, or the text of
/// the parse error.
pub uninterp spec fn url_parse_spec(input: Seq<char>) -> Result<UrlPartsView, Seq<char>>;

/// What `url::Url::join` makes of the URL serialized as `base` and the text
/// `input`, or the text of the error.
pub uninterp spec fn url_join_spec(base: Seq<char>, input: Seq<char>) -> Result<UrlPartsView, Seq<char>>;

/// `url::Url::parse`; the result, read through `as_str`, `scheme`,
/// `host_str` and `port`, or the error's text, is a function of the input.
/// Nothing is stated of what the parser accepts.
#[verifier::external_body]
pub(crate) fn parse_url(input: &str) -> (r: Result<UrlParts, String>)
    ensures
        parts_result(r) == url_parse_spec(input@),
{
    match url::Url::parse(input) {
        Ok(u) => Ok(UrlParts {
            href: u.as_str().to_string(),
            scheme: u.scheme().to_string(),
            host: u.host_str().map(|h| h.to_string()),
            port: u.port(),
        }),
        Err(e) => Err(e.to_string()),
    }
}

/// `url::Url::join` on the URL serialized as `base` (rebuilt from its
/// serialization by `Url::parse`, which gives the same URL back); the
/// result, or the error's text, is a function of the two texts. Nothing is
/// stated of how relative references resolve.
#[verifier::external_body]
pub(crate) fn join_url(base: &str, input: &str) -> (r: Result<UrlParts, String>)
    ensures
        parts_result(r) == url_join_spec(base@, input@),
{
    match url::Url::parse(base).and_then(|b| b.join(input)) {
        Ok(u) => Ok(UrlParts {
            href: u.as_str().to_string(),
            scheme: u.scheme().to_string(),
            host: u.host_str().map(|h| h.to_string()),
            port: u.port(),
        }),
        Err(e) => Err(e.to_string()),
    }
}

/// The bytes that `urlencoding` leaves as they are.
pub open spec fn is_unreserved(b: u8) -> bool {
    (48 <= b && b <= 57) || (65 <= b && b <= 90) || (97 <= b && b <= 122) || b == 45 || b == 46 || b == 95
        || b == 126
}

/// Upper-case hexadecimal digit of `d < 16`.
pub open spec fn hex_upper_digit(d: u8) -> char {
    if d < 10 {
        (48 + d) as char
    } else {
        (55 + d) as char
    }
}

/// Percent-encoding of a byte string: unreserved bytes as themselves, every
/// other byte as `%` and two upper-case hex digits.
pub open spec fn percent_encoded(bytes: Seq<u8>) -> Seq<char>
    decreases bytes.len(),
{
    if bytes.len() == 0 {
        Seq::<char>::empty()
    } else {
        let b = bytes.last();
        let tail = if is_unreserved(b) {
            seq![b as char]
        } else {
            seq!['%', hex_upper_digit(b / 16), hex_upper_digit(b % 16)]
        };
        percent_encoded(bytes.drop_last()) + tail
    }
}

/// `urlencoding::encode`: percent-encodes the UTF-8 bytes of `s`, leaving
/// ASCII letters, digits and `-`, `.`, `_`, `~` as they are.
#[verifier::external_body]
pub(crate) fn encode_segment(s: &str) -> (r: String)
    ensures
        r@ == percent_encoded(vstd::utf8::encode_utf8(s@)),
{
    urlencoding::encode(s).into_owned()
}

} // verus!
