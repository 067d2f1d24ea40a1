//! The package manager service.
use std::collections::HashMap;
use vstd::prelude::*;
use vstd::string::*;
use crate::artifactory::{pkg_name, pkg_ver, split_pkg};
use crate::text::concat4;
use crate::net::{ApiRequest, HttpMethod};
use crate::resp::{make_request, new_http_client, request_spec, ApiReqError};

verus! {

/// A package of the package manager.
#[derive(Debug, Default, Clone)]
pub struct ModelDpm {
    pub name: String,
    pub ver: String,
    pub md5: String,
    pub descript: String,
    pub license: String,
    pub url: Option<String>,
    pub cont_size: i64,
    pub runtime: String,
    pub scripts: Option<HashMap<String, String>>,
}

impl ModelDpm {
    /// Sets the package's md5 and leaves every other field as it was.
    pub fn set_md5(&mut self, md5: String)
        ensures
            final(self).md5 == md5,
            final(self).name == old(self).name,
            final(self).ver == old(self).ver,
            final(self).descript == old(self).descript,
            final(self).license == old(self).license,
            final(self).url == old(self).url,
            final(self).cont_size == old(self).cont_size,
            final(self).runtime == old(self).runtime,
            final(self).scripts == old(self).scripts,
    {
        self.md5 = md5;
    }
}

/// The runtime to add: its name and version.
pub struct AddRuntime<'r> {
    pub runtime_name: &'r str,
    pub runtime_ver: &'r str,
}

/// The body of a runtime addition.
pub struct Runtime<'r> {
    pub runtime: &'r str,
    pub ver_str: &'r str,
}

/// The path of the package lookup.
pub open spec fn pkg_info_path(pkg: Seq<char>) -> Seq<char> {
    "/api/dpm/info?name="@ + pkg_name(pkg) + "&ver="@ + pkg_ver(pkg)
}

/// The path of the package list of a runtime.
pub open spec fn dpm_list_path(rt_name: Seq<char>) -> Seq<char> {
    "/api/dpm/list?runtime="@ + rt_name
}

/// The client of the package manager service.
pub struct DpmSvr {
    host: String,
    cookie: String,
}

impl DpmSvr {
    /// The service address.
    pub closed spec fn host_view(&self) -> Seq<char> {
        self.host@
    }

    /// The cookie sent with the requests.
    pub closed spec fn cookie_view(&self) -> Seq<char> {
        self.cookie@
    }

    pub fn new(host: String, cookie: String) -> (res: Self)
        ensures
            res.host_view() == host@,
            res.cookie_view() == cookie@,
    {
        Self { host, cookie }
    }

    /// A client for the requests; the reqwest error where none can be built.
    pub fn client_builder(&self) -> (res: Result<reqwest::Client, ApiReqError>)
        ensures
            res matches Err(e) ==> e is ReqError,
    {
        new_http_client()
    }

    /// GET of the package that a `name@ver` reference names (`^` where no
    /// version is given), with the cookie. The response goes through
    /// `map_respvo_data`.
    pub fn get_pkg_info_request(&self, pkg: &str) -> (res: Result<ApiRequest, ApiReqError>)
        ensures
            request_spec(
                res,
                self.host_view(),
                pkg_info_path(pkg@),
                HttpMethod::Get,
                false,
                Some(self.cookie_view()),
            ),
    {
        let (name, ver) = split_pkg(pkg);
        let path = concat4("/api/dpm/info?name=", name.as_str(), "&ver=", ver.as_str());
        make_request(self.host.as_str(), path.as_str(), HttpMethod::Get, false, Some(self.cookie.as_str()))
    }

    /// GET of the package list of a runtime, with the cookie. The response
    /// goes through `map_respvo_data`.
    pub fn get_pkg_list_request(&self, rt_name: &str) -> (res: Result<ApiRequest, ApiReqError>)
        ensures
            request_spec(
                res,
                self.host_view(),
                dpm_list_path(rt_name@),
                HttpMethod::Get,
                false,
                Some(self.cookie_view()),
            ),
    {
        let mut path = String::from_str("/api/dpm/list?runtime=");
        path.append(rt_name);
        make_request(self.host.as_str(), path.as_str(), HttpMethod::Get, false, Some(self.cookie.as_str()))
    }

    /// PUT of a package (JSON body of a `ModelDpm`), with the cookie.
    pub fn put_pkg_add_request(&self) -> (res: Result<ApiRequest, ApiReqError>)
        ensures
            request_spec(
                res,
                self.host_view(),
                "/api/dpm/add"@,
                HttpMethod::Put,
                true,
                Some(self.cookie_view()),
            ),
    {
        make_request(self.host.as_str(), "/api/dpm/add", HttpMethod::Put, true, Some(self.cookie.as_str()))
    }
}

} // verus!
