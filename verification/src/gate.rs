//! The application gateway service: update checks and application events.
use vstd::prelude::*;
use vstd::string::*;
use crate::net::{ApiRequest, HttpMethod};
use crate::resp::{make_request, new_http_client, request_spec, ApiReqError};
use crate::text::{decimal, decimal_value, is_decimal_text, law_decimal_reads_back, string_of, u64_to_text};

verus! {

/// The path of the update check of an application at a version number.
pub open spec fn checkupdate_path(appid: Seq<char>, vnum: nat) -> Seq<char> {
    "/api/app_ver/"@ + appid + "/checkupdate/"@ + decimal(vnum)
}

/// The update check asks about the version number it was given: its path
/// ends in digits that read back, in base 10, as that number.
pub proof fn law_checkupdate_path_version(appid: Seq<char>, vnum: nat)
    ensures
        exists|t: Seq<char>|
            #![trigger decimal_value(t)]
            {
                &&& checkupdate_path(appid, vnum) == "/api/app_ver/"@ + appid + "/checkupdate/"@ + t
                &&& is_decimal_text(t)
                &&& decimal_value(t) == vnum
            },
{
    law_decimal_reads_back(vnum);
    let t = decimal(vnum);
    assert(checkupdate_path(appid, vnum) == "/api/app_ver/"@ + appid + "/checkupdate/"@ + t);
}

/// The path of all events of one kind of an application.
pub open spec fn appevent_path(appid: Seq<char>, event: Seq<char>) -> Seq<char> {
    "/api/app_event/"@ + appid + "/"@ + event + "/all"@
}

/// The path of the events of an application at a version.
pub open spec fn latest_appvers_path(appid: Seq<char>, ver: Seq<char>) -> Seq<char> {
    "/api/app_events/"@ + appid + "/"@ + ver + "/all"@
}

/// The client of the gateway service.
pub struct GateSvr {
    host: String,
    cookie: Option<String>,
}

impl GateSvr {
    /// The service address.
    pub closed spec fn host_view(&self) -> Seq<char> {
        self.host@
    }

    /// The cookie kept for the requests, if any.
    pub closed spec fn cookie_view(&self) -> Option<Seq<char>> {
        match self.cookie {
            Some(c) => Some(c@),
            None => None,
        }
    }

    pub fn new(host: String, cookie: Option<String>) -> (res: Self)
        ensures
            res.host_view() == host@,
            res.cookie_view() == (match cookie {
                Some(c) => Some(c@),
                None => None::<Seq<char>>,
            }),
    {
        Self { host, cookie }
    }

    pub fn set_host(&mut self, host: &str)
        ensures
            final(self).host_view() == host@,
            final(self).cookie_view() == old(self).cookie_view(),
    {
        self.host = string_of(host);
    }

    pub fn set_authkey(&mut self, auth_key: &str)
        ensures
            final(self).cookie_view() == Some(auth_key@),
            final(self).host_view() == old(self).host_view(),
    {
        self.cookie = Some(string_of(auth_key));
    }

    /// A client for the requests; the reqwest error where none can be built.
    pub fn client_builder(&self) -> (res: Result<reqwest::Client, ApiReqError>)
        ensures
            res matches Err(e) ==> e is ReqError,
    {
        new_http_client()
    }

    /// GET of the update check, without headers.
    pub fn get_checkupdate_request(&self, appid: &str, vnum: u32) -> (res: Result<
        ApiRequest,
        ApiReqError,
    >)
        ensures
            request_spec(res, self.host_view(), checkupdate_path(appid@, vnum as nat), HttpMethod::Get, false, None),
    {
        let mut path = String::from_str("/api/app_ver/");
        path.append(appid);
        path.append("/checkupdate/");
        let v = u64_to_text(vnum as u64);
        path.append(v.as_str());
        make_request(self.host.as_str(), path.as_str(), HttpMethod::Get, false, None)
    }

    /// GET of the events of an application, without headers.
    pub fn get_appevent_request(&self, appid: &str, event: &str) -> (res: Result<
        ApiRequest,
        ApiReqError,
    >)
        ensures
            request_spec(res, self.host_view(), appevent_path(appid@, event@), HttpMethod::Get, false, None),
    {
        let mut path = String::from_str("/api/app_event/");
        path.append(appid);
        path.append("/");
        path.append(event);
        path.append("/all");
        make_request(self.host.as_str(), path.as_str(), HttpMethod::Get, false, None)
    }

    /// GET of the events of an application at a version, without headers.
    pub fn get_latest_appvers_request(&self, appid: &str, ver: &str) -> (res: Result<
        ApiRequest,
        ApiReqError,
    >)
        ensures
            request_spec(res, self.host_view(), latest_appvers_path(appid@, ver@), HttpMethod::Get, false, None),
    {
        let mut path = String::from_str("/api/app_events/");
        path.append(appid);
        path.append("/");
        path.append(ver);
        path.append("/all");
        make_request(self.host.as_str(), path.as_str(), HttpMethod::Get, false, None)
    }
}

} // verus!
