//! Outside items for URLs and the HTTP client, and the request that the
//! service clients build.
use vstd::prelude::*;

verus! {

/// The error that parsing a URL gives.
#[verifier::external_type_specification]
#[verifier::external_body]
pub struct ExUrlParseError(url::ParseError);

/// An HTTP client of reqwest.
#[verifier::external_type_specification]
#[verifier::external_body]
pub struct ExHttpClient(reqwest::Client);

/// The error type of reqwest.
#[verifier::external_type_specification]
#[verifier::external_body]
pub struct ExHttpError(reqwest::Error);

/// The serialization of the URL that `url::Url::parse` makes of `input`, or
/// `None` where it fails.
pub uninterp spec fn url_parse_text(input: Seq<char>) -> Option<Seq<char>>;

/// The serialization of the URL that `url::Url::join` makes of `input`
/// against the URL whose serialization is `base`, or `None` where it fails.
pub uninterp spec fn url_join_text(base: Seq<char>, input: Seq<char>) -> Option<Seq<char>>;

/// The serialization of the URL whose serialization is `base` after
/// `url::Url::set_query` put `query` in it, or `None` where `base` does not
/// parse.
pub uninterp spec fn url_with_query_text(base: Seq<char>, query: Seq<char>) -> Option<Seq<char>>;

/// A failed URL parse: the url crate's error and its description.
#[derive(Debug)]
pub struct UrlParseFailure {
    pub error: url::ParseError,
    pub text: String,
}

/// Calls `url::Url::parse` and hands back the serialization of the URL
/// (`String::from(Url)`), or the error with its `Display` text. Claimed: it
/// succeeds exactly where the named result is `Some`, and then gives that
/// text; on failure the text is the named description, one of those that
/// the url crate gives its error variants. Which `ParseError` value comes
/// back is left unsaid.
#[verifier::external_body]
pub(crate) fn url_parse(input: &str) -> (res: Result<String, UrlParseFailure>)
    ensures
        res is Ok <==> url_parse_text(input@) is Some,
        res matches Ok(t) ==> url_parse_text(input@) == Some(t@),
        res matches Err(f) ==> f.text@ == url_parse_error_text(input@) && url_error_description(f.text@),
{
    url::Url::parse(input).map(String::from).map_err(|e| UrlParseFailure { text: e.to_string(), error: e })
}

/// Calls `url::Url::join` on the URL that `base` serializes (turned back into
/// a `Url` by `Url::parse`) and hands back the serialization of the result.
/// Claimed: it succeeds exactly where the named result is `Some`, and then
/// gives that text. Which `ParseError` comes on failure is left unsaid.
#[verifier::external_body]
pub(crate) fn url_join(base: &str, input: &str) -> (res: Result<String, url::ParseError>)
    ensures
        res is Ok <==> url_join_text(base@, input@) is Some,
        res matches Ok(t) ==> url_join_text(base@, input@) == Some(t@),
{
    url::Url::parse(base)?.join(input).map(String::from)
}

/// Calls `url::Url::set_query` with `Some(query)` on the URL that `base`
/// serializes (turned back into a `Url` by `Url::parse`) and hands back the
/// serialization. Claimed: it succeeds exactly where the named result is
/// `Some`, and then gives that text.
#[verifier::external_body]
pub(crate) fn url_set_query(base: &str, query: &str) -> (res: Result<String, url::ParseError>)
    ensures
        res is Ok <==> url_with_query_text(base@, query@) is Some,
        res matches Ok(t) ==> url_with_query_text(base@, query@) == Some(t@),
{
    let mut u = url::Url::parse(base)?;
    u.set_query(Some(query));
    Ok(String::from(u))
}

/// Whether a text is one of the descriptions that the url crate gives the
/// variants of its `ParseError`.
pub open spec fn url_error_description(t: Seq<char>) -> bool {
    ||| t == "empty host"@
    ||| t == "invalid international domain name"@
    ||| t == "invalid port number"@
    ||| t == "invalid IPv4 address"@
    ||| t == "invalid IPv6 address"@
    ||| t == "invalid domain character"@
    ||| t == "relative URL without a base"@
    ||| t == "relative URL with a cannot-be-a-base base"@
    ||| t == "a cannot-be-a-base URL doesn’t have a host to set"@
    ||| t == "URLs more than 4 GB are not supported"@
}

/// The description (its `Display` text) of the error that `url::Url::parse`
/// gives for `input`, where it fails.
pub uninterp spec fn url_parse_error_text(input: Seq<char>) -> Seq<char>;

/// Calls `reqwest::Client::builder().build()`. Whether a client comes back
/// depends on the machine (TLS backend, resolver configuration), so nothing
/// is claimed of the outcome.
#[verifier::external_body]
pub(crate) fn build_http_client() -> (res: Result<reqwest::Client, reqwest::Error>) {
    reqwest::Client::builder().build()
}

/// The HTTP method of a request.
#[derive(Debug, Clone, Copy, PartialEq, Eq, Structural)]
pub enum HttpMethod {
    Get,
    Post,
    Put,
}

/// A request to one of the services: method, absolute URL, whether it sends
/// `Content-Type: application/json`, and the `Cookie` header, if any. The
/// body, where there is one, is the caller's serialization of the payload.
#[derive(Debug)]
pub struct ApiRequest {
    pub method: HttpMethod,
    pub url: String,
    pub json_content: bool,
    pub cookie: Option<String>,
}

} // verus!
