//! The response envelope of the services, the request error, and the checks
//! on a response.
use vstd::prelude::*;
use vstd::string::*;
use crate::net::{
    build_http_client, url_join, url_join_text, url_parse, url_parse_text, ApiRequest, HttpMethod,
};
use crate::text::string_of;

verus! {

/// The envelope of every service response: a code (0 is success), a
/// message, and the data where there is some.
#[derive(Debug, Default)]
pub struct RespVO<T> {
    pub data: Option<T>,
    pub code: u16,
    pub msg: String,
}

/// The address of a service and the cookie that goes with its requests.
#[derive(Debug, Clone)]
pub struct HttpRpcCore {
    pub host: String,
    pub cookie: Option<String>,
}

/// Why a call to a service failed.
#[derive(Debug)]
pub enum ApiReqError {
    ReqError(reqwest::Error),
    CustomError(String),
    RespError(String, u16),
    UrlError(url::ParseError),
    CacheError(String),
    DownloadFailed(String),
}

/// The URL that a path names on a host: the host parsed, then the path
/// joined to it.
pub open spec fn resolve_text(host: Seq<char>, path: Seq<char>) -> Option<Seq<char>> {
    match url_parse_text(host) {
        Some(base) => url_join_text(base, path),
        None => None,
    }
}

/// The URL that `path` names on `host`; a URL error where either step fails.
pub fn resolve_url(host: &str, path: &str) -> (res: Result<String, ApiReqError>)
    ensures
        res is Ok <==> resolve_text(host@, path@) is Some,
        res matches Ok(u) ==> resolve_text(host@, path@) == Some(u@),
        res matches Err(e) ==> e is UrlError,
{
    match url_parse(host) {
        Ok(base) => match url_join(base.as_str(), path) {
            Ok(u) => Ok(u),
            Err(e) => Err(ApiReqError::UrlError(e)),
        },
        Err(f) => Err(ApiReqError::UrlError(f.error)),
    }
}

/// A request with the given method, URL and headers; a URL error where the
/// path does not resolve on the host.
pub open spec fn request_spec(
    res: Result<ApiRequest, ApiReqError>,
    host: Seq<char>,
    path: Seq<char>,
    method: HttpMethod,
    json_content: bool,
    cookie: Option<Seq<char>>,
) -> bool {
    &&& res is Ok <==> resolve_text(host, path) is Some
    &&& res matches Ok(r) ==> {
        &&& resolve_text(host, path) == Some(r.url@)
        &&& r.method == method
        &&& r.json_content == json_content
        &&& match (r.cookie, cookie) {
            (Some(a), Some(b)) => a@ == b,
            (None, None) => true,
            _ => false,
        }
    }
    &&& res matches Err(e) ==> e is UrlError
}

/// Builds a request to `path` on `host`.
pub fn make_request(
    host: &str,
    path: &str,
    method: HttpMethod,
    json_content: bool,
    cookie: Option<&str>,
) -> (res: Result<ApiRequest, ApiReqError>)
    ensures
        request_spec(
            res,
            host@,
            path@,
            method,
            json_content,
            match cookie {
                Some(c) => Some(c@),
                None => None,
            },
        ),
{
    let url = resolve_url(host, path)?;
    let cookie = match cookie {
        Some(c) => Some(string_of(c)),
        None => None,
    };
    Ok(ApiRequest { method, url, json_content, cookie })
}

/// A client for the requests; the reqwest error where none can be built.
pub fn new_http_client() -> (res: Result<reqwest::Client, ApiReqError>)
    ensures
        res matches Err(e) ==> e is ReqError,
{
    match build_http_client() {
        Ok(c) => Ok(c),
        Err(e) => Err(ApiReqError::ReqError(e)),
    }
}

/// The data of a response whose code is 0; otherwise its message and code
/// as an error, and `("data is none", 999)` where a successful response has
/// no data.
pub fn map_respvo_data<T>(vo: RespVO<T>) -> (res: Result<T, ApiReqError>)
    ensures
        vo.code != 0 ==> (res matches Err(ApiReqError::RespError(m, c)) && m == vo.msg && c
            == vo.code),
        vo.code == 0 && vo.data is None ==> (res matches Err(ApiReqError::RespError(m, c)) && m@
            == "data is none"@ && c == 999),
        vo.code == 0 && vo.data is Some ==> res == Ok::<T, ApiReqError>(vo.data->0),
{
    if vo.code != 0 {
        return Err(ApiReqError::RespError(vo.msg, vo.code));
    }
    match vo.data {
        None => Err(ApiReqError::RespError(String::from_str("data is none"), 999)),
        Some(d) => Ok(d),
    }
}

/// Whether a response reports an error code.
pub fn map_respvo_iserror<T>(vo: RespVO<T>) -> (res: bool)
    ensures
        res == (vo.code != 0),
{
    vo.code != 0
}

/// Whether a response reports an error code, together with the response
/// itself.
pub fn map_respvo_iserror_vo<T>(vo: RespVO<T>) -> (res: Result<(bool, RespVO<T>), ApiReqError>)
    ensures
        res == Ok::<(bool, RespVO<T>), ApiReqError>((vo.code != 0, vo)),
{
    let is_error = vo.code != 0;
    Ok((is_error, vo))
}

} // verus!
