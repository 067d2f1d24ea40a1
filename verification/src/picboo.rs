//! The picture book service: ISBN records.
use vstd::prelude::*;
use vstd::string::*;
use crate::net::{url_join, url_join_text, url_parse, url_parse_text, ApiRequest, HttpMethod};
use crate::resp::{new_http_client, ApiReqError, HttpRpcCore};
use crate::text::string_of;

verus! {

/// Whether an ISBN has an accepted length: 10 or 13 bytes.
pub open spec fn isbn_len_ok(isbn: &str) -> bool {
    isbn.len() == 13 || isbn.len() == 10
}

/// Refuses an ISBN whose length in bytes is neither 10 nor 13.
pub fn chk_illegal_isbn(isbn: &str) -> (res: Result<(), ApiReqError>)
    ensures
        res is Ok <==> isbn_len_ok(isbn),
        res is Ok <==> (isbn.len() == 10 || isbn.len() == 13),
        res is Err ==> (res matches Err(ApiReqError::CustomError(m)) && m@ == "params:isbn illegal"@),
{
    let l = isbn.len();
    if l != 13 && l != 10 {
        return Err(ApiReqError::CustomError(String::from_str("params:isbn illegal")));
    }
    Ok(())
}

/// The URL of an ISBN under a prefix path on a host: the host parsed, the
/// prefix joined to it, then the ISBN joined to that.
pub open spec fn isbn_url_text(host: Seq<char>, prefix: Seq<char>, isbn: Seq<char>) -> Option<Seq<char>> {
    match url_parse_text(host) {
        Some(b) => match url_join_text(b, prefix) {
            Some(p) => url_join_text(p, isbn),
            None => None,
        },
        None => None,
    }
}

/// What an ISBN request is: refused for a bad ISBN, a URL error where the
/// URL does not resolve, else the method with a JSON content type and the
/// cookie (empty where there is none).
pub open spec fn isbn_request_spec(
    res: Result<ApiRequest, ApiReqError>,
    host: Seq<char>,
    cookie: Option<Seq<char>>,
    prefix: Seq<char>,
    isbn: &str,
    method: HttpMethod,
) -> bool {
    &&& !isbn_len_ok(isbn) ==> (res matches Err(ApiReqError::CustomError(m)) && m@ == "params:isbn illegal"@)
    &&& isbn_len_ok(isbn) ==> (res is Ok <==> isbn_url_text(host, prefix, isbn@) is Some)
    &&& isbn_len_ok(isbn) && res is Err ==> (res matches Err(ApiReqError::UrlError(_)))
    &&& res matches Ok(r) ==> {
        &&& isbn_url_text(host, prefix, isbn@) == Some(r.url@)
        &&& r.method == method
        &&& r.json_content
        &&& (r.cookie matches Some(c) && c@ == (match cookie {
            Some(k) => k,
            None => Seq::<char>::empty(),
        }))
    }
}

/// An ISBN request is made only for an ISBN of 10 or 13 bytes. At any other
/// length, 11 and 12 among them, it is refused with "params:isbn illegal"
/// and nothing is requested; at 10 or 13 bytes that refusal never comes.
pub proof fn law_isbn_request_needs_isbn_length(
    res: Result<ApiRequest, ApiReqError>,
    host: Seq<char>,
    cookie: Option<Seq<char>>,
    prefix: Seq<char>,
    isbn: &str,
    method: HttpMethod,
)
    requires
        isbn_request_spec(res, host, cookie, prefix, isbn, method),
    ensures
        res is Ok ==> (isbn.len() == 10 || isbn.len() == 13),
        !(isbn.len() == 10 || isbn.len() == 13) ==> (res matches Err(ApiReqError::CustomError(m))
            && m@ == "params:isbn illegal"@),
        (isbn.len() == 10 || isbn.len() == 13) ==> !(res matches Err(ApiReqError::CustomError(_))),
{
}

/// The client of the picture book service.
pub struct PicbooSvr {
    http_rpc: HttpRpcCore,
    authkey: Option<String>,
}

impl PicbooSvr {
    /// The service address.
    pub closed spec fn host_view(&self) -> Seq<char> {
        self.http_rpc.host@
    }

    /// The cookie sent with the requests, if any.
    pub closed spec fn cookie_view(&self) -> Option<Seq<char>> {
        match self.http_rpc.cookie {
            Some(c) => Some(c@),
            None => None,
        }
    }

    /// The authentication key kept with the client, if any.
    pub closed spec fn authkey_view(&self) -> Option<Seq<char>> {
        match self.authkey {
            Some(c) => Some(c@),
            None => None,
        }
    }

    pub fn from(host: String, cookie: Option<String>, authkey: Option<String>) -> (res: Self)
        ensures
            res.host_view() == host@,
            res.cookie_view() == (match cookie {
                Some(c) => Some(c@),
                None => None::<Seq<char>>,
            }),
            res.authkey_view() == (match authkey {
                Some(c) => Some(c@),
                None => None::<Seq<char>>,
            }),
    {
        Self { http_rpc: HttpRpcCore { host, cookie }, authkey }
    }

    pub fn new(http_rpc: HttpRpcCore, authkey: Option<String>) -> (res: Self)
        ensures
            res.host_view() == http_rpc.host@,
            res.cookie_view() == (match http_rpc.cookie {
                Some(c) => Some(c@),
                None => None::<Seq<char>>,
            }),
            res.authkey_view() == (match authkey {
                Some(c) => Some(c@),
                None => None::<Seq<char>>,
            }),
    {
        Self { http_rpc, authkey }
    }

    pub fn set_host(&mut self, host: &str)
        ensures
            final(self).host_view() == host@,
            final(self).cookie_view() == old(self).cookie_view(),
            final(self).authkey_view() == old(self).authkey_view(),
    {
        self.http_rpc.host = string_of(host);
    }

    /// Sets the cookie of the requests (not the kept authentication key).
    pub fn set_authkey(&mut self, auth_key: &str)
        ensures
            final(self).cookie_view() == Some(auth_key@),
            final(self).host_view() == old(self).host_view(),
            final(self).authkey_view() == old(self).authkey_view(),
    {
        self.http_rpc.cookie = Some(string_of(auth_key));
    }

    /// A client for the requests; the reqwest error where none can be built.
    pub fn client_builder(&self) -> (res: Result<reqwest::Client, ApiReqError>)
        ensures
            res matches Err(e) ==> e is ReqError,
    {
        new_http_client()
    }

    fn isbn_request(&self, prefix: &str, isbn: &str, method: HttpMethod) -> (res: Result<
        ApiRequest,
        ApiReqError,
    >)
        ensures
            isbn_request_spec(res, self.host_view(), self.cookie_view(), prefix@, isbn, method),
    {
        chk_illegal_isbn(isbn)?;
        let base = match url_parse(self.http_rpc.host.as_str()) {
            Ok(b) => b,
            Err(f) => {
                return Err(ApiReqError::UrlError(f.error));
            },
        };
        let with_prefix = match url_join(base.as_str(), prefix) {
            Ok(b) => b,
            Err(e) => {
                return Err(ApiReqError::UrlError(e));
            },
        };
        let url = match url_join(with_prefix.as_str(), isbn) {
            Ok(b) => b,
            Err(e) => {
                return Err(ApiReqError::UrlError(e));
            },
        };
        let cookie = match &self.http_rpc.cookie {
            Some(c) => c.clone(),
            None => String::new(),
        };
        Ok(ApiRequest { method, url, json_content: true, cookie: Some(cookie) })
    }

    /// POST that adds an ISBN.
    pub fn isbn_add_request(&self, isbn: &str) -> (res: Result<ApiRequest, ApiReqError>)
        ensures
            isbn_request_spec(
                res,
                self.host_view(),
                self.cookie_view(),
                "/api/picboo/isbn/add/"@,
                isbn,
                HttpMethod::Post,
            ),
    {
        self.isbn_request("/api/picboo/isbn/add/", isbn, HttpMethod::Post)
    }

    /// GET that looks an ISBN up.
    pub fn find_isbn_request(&self, isbn: &str) -> (res: Result<ApiRequest, ApiReqError>)
        ensures
            isbn_request_spec(
                res,
                self.host_view(),
                self.cookie_view(),
                "/api/picboo/isbn/find/"@,
                isbn,
                HttpMethod::Get,
            ),
    {
        self.isbn_request("/api/picboo/isbn/find/", isbn, HttpMethod::Get)
    }
}

} // verus!
