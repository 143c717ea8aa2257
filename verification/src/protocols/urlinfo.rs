//! A handler that answers every address with a plain-text description of the
//! address itself.

use vstd::prelude::*;
use vstd::string::*;
use headers::HeaderMapExt;

verus! {

#[verifier::external_type_specification]
#[verifier::external_body]
#[verifier::reject_recursive_types(T)]
pub struct ExHeaderMap<T>(http::HeaderMap<T>);

#[verifier::external_type_specification]
#[verifier::external_body]
pub struct ExHeaderValue(http::HeaderValue);

/// What a header map holds: for each header name, in lower case, the values
/// recorded under it, in their order, as bytes.
pub uninterp spec fn header_entries(headers: http::HeaderMap) -> Map<Seq<char>, Seq<Seq<u8>>>;

/// How `str`'s `Debug` implementation writes a text: in double quotes, with
/// the characters that need it escaped.
pub uninterp spec fn debug_quoted(text: Seq<char>) -> Seq<char>;

/// The content of a header map without entries.
pub open spec fn no_headers() -> Map<Seq<char>, Seq<Seq<u8>>> {
    Map::empty()
}

/// The content of a header map whose only entry says that the body is plain
/// text.
pub open spec fn plain_text_headers() -> Map<Seq<char>, Seq<Seq<u8>>> {
    no_headers().insert("content-type"@, seq![ascii_bytes("text/plain"@)])
}

/// The bytes of a text of ASCII characters.
pub open spec fn ascii_bytes(text: Seq<char>) -> Seq<u8> {
    Seq::new(text.len(), |i: int| text[i] as u8)
}

/// `http::HeaderMap::new`: a header map without entries.
#[verifier::external_body]
fn empty_headers() -> (made: http::HeaderMap)
    ensures
        header_entries(made) == no_headers(),
{
    http::HeaderMap::new()
}

/// `headers::HeaderMapExt::typed_insert` with `headers::ContentType::text()`:
/// afterwards the map holds, under `content-type`, the single value
/// `text/plain`, in place of whatever it held under that name; the other
/// names keep their values.  The call is made on an empty map only, where it
/// cannot exceed the map's capacity.
#[verifier::external_body]
fn insert_content_type_text(headers: &mut http::HeaderMap)
    requires
        header_entries(*old(headers)) == no_headers(),
    ensures
        header_entries(*final(headers)) == header_entries(*old(headers)).insert(
            "content-type"@,
            seq![ascii_bytes("text/plain"@)],
        ),
{
    headers.typed_insert(headers::ContentType::text());
}

/// `http::StatusCode::OK` as a number, by `http::StatusCode::as_u16`: 200.
#[verifier::external_body]
fn status_ok() -> (code: u16)
    ensures
        code == 200,
{
    http::StatusCode::OK.as_u16()
}

/// `str`'s `Debug` implementation, through `format!`.
#[verifier::external_body]
fn debug_quote(text: &str) -> (quoted: String)
    ensures
        quoted@ == debug_quoted(text@),
{
    format!("{:?}", text)
}

/// An address, taken apart.
#[derive(Clone, Debug, PartialEq, Eq)]
pub struct UrlParts {
    /// The address in full.
    pub url: String,
    /// Its scheme, without the colon.
    pub scheme: String,
    /// Its path.
    pub path: String,
    /// Its query, without the question mark, if it has one.
    pub query: Option<String>,
}

/// The description of an address: four lines that give the address, its
/// scheme, its path and its query.  `query` is the last line's value as it
/// is to appear.
pub open spec fn url_info(
    url: Seq<char>,
    scheme: Seq<char>,
    path: Seq<char>,
    query: Seq<char>,
) -> Seq<char> {
    "Full url: "@ + url + "\n  scheme: "@ + scheme + "\n    path: "@ + path + "\n   query: "@
        + query
}

/// How the description shows a query: `None` for an address without one,
/// else the query, quoted, inside `Some(` and `)`.
pub open spec fn query_shown(query: Option<Seq<char>>) -> Seq<char> {
    match query {
        Some(q) => "Some("@ + debug_quoted(q) + ")"@,
        None => "None"@,
    }
}

/// The answer to a request for an address's description.
pub struct UrlInfoResponse {
    /// The address that was asked for.
    pub url: String,
    /// The description, encoded as UTF-8.
    pub body: Vec<u8>,
    /// The headers: the content type, which is plain text.
    pub headers: http::HeaderMap,
    /// The status: its number and its reason.
    pub status: Option<(u16, String)>,
    /// The status again, its reason in bytes.
    pub raw_status: Option<(u16, Vec<u8>)>,
}

/// Whether a response is the answer for an address whose description is
/// `content`.
pub open spec fn is_url_info_response(
    response: UrlInfoResponse,
    url: Seq<char>,
    content: Seq<char>,
) -> bool {
    &&& response.url@ == url
    &&& response.body@ == vstd::utf8::encode_utf8(content)
    &&& header_entries(response.headers) == plain_text_headers()
    &&& response.status matches Some(status)
    &&& status.0 == 200
    &&& status.1@ == "OK"@
    &&& response.raw_status matches Some(raw)
    &&& raw.0 == 200
    &&& raw.1@ == vstd::utf8::encode_utf8("OK"@)
}

/// Writes the description of an address.  `query` is the last line's value
/// as it is to appear.
pub fn url_info_text(url: &str, scheme: &str, path: &str, query: &str) -> (content: String)
    ensures
        content@ == url_info(url@, scheme@, path@, query@),
{
    let mut content = String::from_str("Full url: ");
    content.append(url);
    content.append("\n  scheme: ");
    content.append(scheme);
    content.append("\n    path: ");
    content.append(path);
    content.append("\n   query: ");
    content.append(query);
    content
}

/// Writes a query as the description shows it, given the query in quotes.
pub fn query_text(quoted: Option<&str>) -> (shown: String)
    ensures
        shown@ == match quoted {
            Some(q) => "Some("@ + q@ + ")"@,
            None => "None"@,
        },
{
    match quoted {
        Some(q) => {
            let mut shown = String::from_str("Some(");
            shown.append(q);
            shown.append(")");
            shown
        },
        None => String::from_str("None"),
    }
}

/// Builds the answer that carries `content`.
pub fn url_info_response(url: &str, content: &str) -> (response: UrlInfoResponse)
    ensures
        is_url_info_response(response, url@, content@),
{
    let mut headers = empty_headers();
    insert_content_type_text(&mut headers);
    let ok = status_ok();
    UrlInfoResponse {
        url: String::from_str(url),
        body: content.as_bytes_vec(),
        headers,
        status: Some((ok, String::from_str("OK"))),
        raw_status: Some((ok, "OK".as_bytes_vec())),
    }
}

/// Answers every request with a description of the address asked for.
#[derive(Clone, Copy, Debug, Default)]
pub struct UrlInfoProtocolHandler {}

impl UrlInfoProtocolHandler {
    /// Answers the request for an address: status 200, content type plain
    /// text, and as body the description of the address.
    pub fn load(&self, url: &UrlParts) -> (response: UrlInfoResponse)
        ensures
            is_url_info_response(
                response,
                url.url@,
                url_info(
                    url.url@,
                    url.scheme@,
                    url.path@,
                    query_shown(crate::webview::opt_text(url.query)),
                ),
            ),
    {
        let query = match &url.query {
            Some(q) => {
                let quoted = debug_quote(q.as_str());
                query_text(Some(quoted.as_str()))
            },
            None => query_text(None),
        };
        let content = url_info_text(
            url.url.as_str(),
            url.scheme.as_str(),
            url.path.as_str(),
            query.as_str(),
        );
        url_info_response(url.url.as_str(), content.as_str())
    }
}

} // verus!
