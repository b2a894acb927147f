//! The parts of an absolute URI, held as plain text that the `http` crate has
//! accepted.

use crate::api_uri::error::InvalidApiUriError;
use vstd::prelude::*;
use vstd::string::{is_ascii_spec_bytes, StringExecFns};
use vstd::utf8::is_ascii_chars;

verus! {

/// Parse failure of the `http` crate, carried through without being read.
#[verifier::external_type_specification]
#[verifier::external_body]
pub struct ExInvalidUri(http::uri::InvalidUri);

/// Whether `http::uri::Authority` accepts `text` as a `host[:port]` authority.
pub uninterp spec fn authority_accepts(text: Seq<char>) -> bool;

/// Whether `http::uri::PathAndQuery` accepts `text` as a path with an
/// optional query.
pub uninterp spec fn path_and_query_accepts(text: Seq<char>) -> bool;

/// A host name written with ASCII letters, digits, dots and hyphens only.
pub open spec fn is_plain_host(text: Seq<char>) -> bool {
    &&& text.len() > 0
    &&& forall|i: int|
        0 <= i < text.len() ==> {
            let c = #[trigger] text[i];
            ('a' <= c && c <= 'z') || ('A' <= c && c <= 'Z') || ('0' <= c && c <= '9') || c == '.'
                || c == '-'
        }
}

/// Number of leading characters of `text` that are neither `first` nor
/// `second`.
pub open spec fn leading_len(text: Seq<char>, first: char, second: char) -> nat
    decreases text.len(),
{
    if text.len() == 0 || text[0] == first || text[0] == second {
        0
    } else {
        1 + leading_len(text.drop_first(), first, second)
    }
}

/// The path component of `text`: what stands before the first `?` or `#`,
/// and `/` where nothing does.
pub open spec fn path_part(text: Seq<char>) -> Seq<char> {
    let path = text.take(leading_len(text, '?', '#') as int);
    if path.len() == 0 {
        seq!['/']
    } else {
        path
    }
}

/// The query component of `text`: what stands between the first `?` and the
/// first `#` after it, where the path ends in a `?`.
pub open spec fn query_part(text: Seq<char>) -> Option<Seq<char>> {
    let end = leading_len(text, '?', '#') as int;
    if end < text.len() && text[end] == '?' {
        let rest = text.skip(end + 1);
        Some(rest.take(leading_len(rest, '#', '#') as int))
    } else {
        None
    }
}

/// A blank or an ASCII control character.
pub open spec fn is_blank_or_control(c: char) -> bool {
    c <= ' ' || c == '\x7f'
}

/// Shapes of `text` that are never a path and query: the empty text, a text
/// other than `*` that starts with none of `/`, `?` and `#`, and a text with
/// a blank or control character before its first `#`.
pub open spec fn is_plainly_malformed(text: Seq<char>) -> bool {
    ||| text.len() == 0
    ||| (text != seq!['*'] && text[0] != '/' && text[0] != '?' && text[0] != '#')
    ||| exists|i: int|
        0 <= i < leading_len(text, '#', '#') && is_blank_or_control(#[trigger] text[i])
}

/// A character that the `http` crate lets stand unescaped in a path: a
/// letter, a digit or one of ``! " $ % & ' ( ) * + , - . / : ; = @ [ \ ] ^ _ { | } ~``.
pub open spec fn is_path_char(c: char) -> bool {
    c == '!' || c == '"' || ('$' <= c && c <= ';') || c == '=' || ('@' <= c && c <= '_') || ('a'
        <= c && c <= 'z') || c == '{' || c == '|' || c == '}' || c == '~'
}

/// A path that is always accepted: it starts with a slash, holds path
/// characters only and is at most 65534 characters long.
pub open spec fn is_well_formed_path(text: Seq<char>) -> bool {
    &&& 0 < text.len() <= 65534
    &&& text[0] == '/'
    &&& forall|i: int| 0 <= i < text.len() ==> is_path_char(#[trigger] text[i])
}

/// Whether `text` is a valid path with an optional query. It is ASCII text
/// without a `#`, so that nothing of it is cut off as a fragment, and the
/// `http` crate accepts it: that it does for every well-formed path and for
/// no plainly malformed text.
pub open spec fn is_path_and_query(text: Seq<char>) -> bool {
    &&& is_ascii_chars(text)
    &&& !text.contains('#')
    &&& !is_plainly_malformed(text)
    &&& (is_well_formed_path(text) || path_and_query_accepts(text))
}

/// Parses `text` with `http::uri::Authority::from_str`. The call succeeds
/// exactly on the texts that the crate accepts, keeps the text as it was
/// given, and accepts every plain host name.
#[verifier::external_body]
fn parse_authority(text: &str) -> (parsed: Result<String, http::uri::InvalidUri>)
    ensures
        parsed is Ok <==> authority_accepts(text@),
        parsed matches Ok(kept) ==> kept@ == text@,
        is_plain_host(text@) ==> parsed is Ok,
{
    let authority = text.parse::<http::uri::Authority>()?;
    Ok(authority.as_str().to_owned())
}

/// Calls `http::uri::PathAndQuery::from_maybe_shared` and hands out the path
/// and the query it found. The call succeeds exactly on the texts that the
/// crate accepts: on every well-formed path, and on no plainly malformed
/// text. What stands behind a `#` is not part of the path or the query.
#[verifier::external_body]
fn parse_path_and_query(text: String) -> (parsed: Result<
    (String, Option<String>),
    http::uri::InvalidUri,
>)
    ensures
        parsed is Ok <==> path_and_query_accepts(text@),
        is_plainly_malformed(text@) ==> parsed is Err,
        is_well_formed_path(text@) ==> parsed is Ok,
        parsed matches Ok((path, query)) ==> {
            &&& path@ == path_part(text@)
            &&& query is Some == query_part(text@) is Some
            &&& query matches Some(q) ==> Some(q@) == query_part(text@)
        },
{
    let parsed = http::uri::PathAndQuery::from_maybe_shared(text)?;
    let query = match parsed.query() {
        Some(query) => Some(query.to_owned()),
        None => None,
    };
    Ok((parsed.path().to_owned(), query))
}

/// Whether `text` is ASCII text that holds no `#`.
fn is_ascii_without_fragment(text: &str) -> (clean: bool)
    ensures
        clean == (is_ascii_chars(text@) && !text@.contains('#')),
{
    if !text.is_ascii() {
        return false;
    }
    let bytes = text.as_bytes();
    proof {
        is_ascii_spec_bytes(text);
    }
    let mut at: usize = 0;
    while at < bytes.len()
        invariant
            at <= bytes.len(),
            bytes@.len() == text@.len(),
            is_ascii_chars(text@),
            forall|i: int| 0 <= i < bytes@.len() ==> bytes@[i] == text@[i] as u8,
            forall|i: int| 0 <= i < at ==> text@[i] != '#',
        decreases bytes.len() - at,
    {
        if bytes[at] == 0x23u8 {
            assert(text@[at as int] == '#');
            assert(text@.contains('#'));
            return false;
        }
        at += 1;
    }
    true
}

/// The scheme of an API URI.
#[derive(Debug, Clone, Copy, PartialEq, Eq, Structural)]
pub enum Scheme {
    Http,
    Https,
}

impl Scheme {
    /// The scheme as it is written in a URI.
    pub open spec fn text(self) -> Seq<char> {
        match self {
            Scheme::Http => "http"@,
            Scheme::Https => "https"@,
        }
    }

    /// The scheme as it is written in a URI.
    pub fn as_str(&self) -> (text: &'static str)
        ensures
            text@ == self.text(),
    {
        match self {
            Scheme::Http => "http",
            Scheme::Https => "https",
        }
    }
}

/// A `host[:port]` authority that the `http` crate accepts.
#[derive(Debug)]
pub struct Authority {
    text: String,
}

impl View for Authority {
    type V = Seq<char>;

    closed spec fn view(&self) -> Seq<char> {
        self.text@
    }
}

impl Clone for Authority {
    fn clone(&self) -> (copy: Self)
        ensures
            copy@ == self@,
    {
        proof {
            use_type_invariant(self);
        }
        Authority { text: self.text.clone() }
    }
}

impl Authority {
    #[verifier::type_invariant]
    spec fn accepted(self) -> bool {
        authority_accepts(self.text@)
    }

    /// Validates `text` as an authority. Fails on every text that is not a
    /// syntactically valid `host[:port]`.
    pub fn parse(text: &str) -> (parsed: Result<Authority, InvalidApiUriError>)
        ensures
            parsed is Ok <==> authority_accepts(text@),
            is_plain_host(text@) ==> parsed is Ok,
            parsed matches Ok(authority) ==> authority@ == text@,
    {
        match parse_authority(text) {
            Ok(kept) => Ok(Authority { text: kept }),
            Err(_) => Err(InvalidApiUriError),
        }
    }

    /// The authority as text.
    pub fn as_str(&self) -> (text: &str)
        ensures
            text@ == self@,
            authority_accepts(self@),
    {
        proof {
            use_type_invariant(self);
        }
        self.text.as_str()
    }
}

/// What a [`Uri`] holds, as plain values.
pub struct UriView {
    pub scheme: Scheme,
    pub authority: Seq<char>,
    pub path: Seq<char>,
    pub query: Option<Seq<char>>,
}

impl UriView {
    /// The URI written out: scheme, `://`, authority, path and, after a `?`,
    /// the query.
    pub open spec fn text(self) -> Seq<char> {
        let head = self.scheme.text() + "://"@ + self.authority + self.path;
        match self.query {
            Some(query) => head + "?"@ + query,
            None => head,
        }
    }
}

/// The URI that a scheme, an authority and a path-and-query text form:
/// none where the text is not a valid path and query. The whole text goes
/// into the URI: its path and its query together hold every character of it
/// but the `?` between them.
pub open spec fn uri_of_parts(scheme: Scheme, authority: Seq<char>, text: Seq<char>) -> Option<
    UriView,
> {
    if is_path_and_query(text) {
        Some(UriView { scheme, authority, path: path_part(text), query: query_part(text) })
    } else {
        None
    }
}

/// An absolute URI: scheme, authority, path and optional query.
#[derive(Debug)]
pub struct Uri {
    scheme: Scheme,
    authority: Authority,
    path: String,
    query: Option<String>,
}

impl View for Uri {
    type V = UriView;

    closed spec fn view(&self) -> UriView {
        UriView {
            scheme: self.scheme,
            authority: self.authority@,
            path: self.path@,
            query: match self.query {
                Some(query) => Some(query@),
                None => None,
            },
        }
    }
}

impl Uri {
    /// Forms an absolute URI. `path_and_query` is validated as a path with
    /// an optional query. A text that is not valid is reported: nothing is
    /// escaped, and nothing is cut off to make the rest fit, so a text with
    /// a `#` or a character outside ASCII fails.
    pub fn from_parts(scheme: Scheme, authority: Authority, path_and_query: String) -> (formed:
        Result<Uri, InvalidApiUriError>)
        ensures
            formed is Ok <==> is_path_and_query(path_and_query@),
            formed matches Ok(uri) ==> Some(uri@) == uri_of_parts(
                scheme,
                authority@,
                path_and_query@,
            ),
    {
        if !is_ascii_without_fragment(path_and_query.as_str()) {
            return Err(InvalidApiUriError);
        }
        match parse_path_and_query(path_and_query) {
            Ok((path, query)) => Ok(Uri { scheme, authority, path, query }),
            Err(_) => Err(InvalidApiUriError),
        }
    }

    pub fn scheme(&self) -> (scheme: Scheme)
        ensures
            scheme == self@.scheme,
    {
        self.scheme
    }

    pub fn authority(&self) -> (authority: &Authority)
        ensures
            authority@ == self@.authority,
    {
        &self.authority
    }

    pub fn path(&self) -> (path: &str)
        ensures
            path@ == self@.path,
    {
        self.path.as_str()
    }

    pub fn query(&self) -> (query: Option<&str>)
        ensures
            query is Some == self@.query is Some,
            query matches Some(q) ==> Some(q@) == self@.query,
    {
        match &self.query {
            Some(query) => Some(query.as_str()),
            None => None,
        }
    }

    /// The URI written out as text.
    pub fn to_text(&self) -> (text: String)
        ensures
            text@ == self@.text(),
    {
        let mut text = self.scheme.as_str().to_owned();
        text.append("://");
        text.append(self.authority.as_str());
        text.append(self.path.as_str());
        match &self.query {
            Some(query) => {
                text.append("?");
                text.append(query.as_str());
            },
            None => {},
        }
        text
    }
}

/// `leading_len` stops at the first of the two characters: it counts no
/// more than the text holds, none of the counted characters is one of the
/// two, and the character after them, if any, is.
pub proof fn lemma_leading_len(text: Seq<char>, first: char, second: char)
    ensures
        leading_len(text, first, second) <= text.len(),
        forall|i: int|
            0 <= i < leading_len(text, first, second) ==> #[trigger] text[i] != first && text[i]
                != second,
        leading_len(text, first, second) < text.len() ==> {
            let stop = text[leading_len(text, first, second) as int];
            stop == first || stop == second
        },
    decreases text.len(),
{
    if text.len() == 0 || text[0] == first || text[0] == second {
    } else {
        let rest = text.drop_first();
        lemma_leading_len(rest, first, second);
        assert forall|i: int| 0 <= i < leading_len(text, first, second) implies #[trigger] text[i]
            != first && text[i] != second by {
            if i > 0 {
                assert(text[i] == rest[i - 1]);
            }
        }
        let n = leading_len(rest, first, second) as int;
        if n < rest.len() {
            assert(text[n + 1] == rest[n]);
        }
    }
}

/// A text without `?` and `#` is all path: its path component is the text
/// itself, character for character, and it has no query.
pub proof fn lemma_plain_text_is_path(text: Seq<char>)
    requires
        text.len() > 0,
        !text.contains('?'),
        !text.contains('#'),
    ensures
        path_part(text) == text,
        query_part(text) is None,
{
    lemma_leading_len(text, '?', '#');
    let end = leading_len(text, '?', '#') as int;
    if end < text.len() {
        assert(text.contains(text[end]));
    }
    assert(text.take(end) =~= text);
}

/// A well-formed path is ASCII text without `?` and `#`, and it is not
/// plainly malformed.
pub proof fn lemma_well_formed_path_is_clean(text: Seq<char>)
    requires
        is_well_formed_path(text),
    ensures
        is_ascii_chars(text),
        !text.contains('?'),
        !text.contains('#'),
        !is_plainly_malformed(text),
        is_path_and_query(text),
{
    assert forall|i: int| 0 <= i < text.len() implies '\0' <= #[trigger] text[i] <= '\u{7f}' by {
        assert(is_path_char(text[i]));
    }
    lemma_leading_len(text, '#', '#');
    assert forall|i: int| 0 <= i < text.len() implies !is_blank_or_control(#[trigger] text[i]) by {
        assert(is_path_char(text[i]));
    }
}

/// A well-formed path is a valid path and query that is all path: its path
/// component is the text itself and it has no query.
pub proof fn lemma_well_formed_path_is_kept(scheme: Scheme, authority: Seq<char>, text: Seq<char>)
    requires
        is_well_formed_path(text),
    ensures
        uri_of_parts(scheme, authority, text) == Some(
            UriView { scheme, authority, path: text, query: None },
        ),
{
    lemma_well_formed_path_is_clean(text);
    lemma_plain_text_is_path(text);
}

} // verus!
