//! The release service: software, platforms, versions and releases.
use vstd::prelude::*;
use vstd::string::*;
use crate::net::{ApiRequest, HttpMethod};
use crate::resp::{make_request, new_http_client, request_spec, ApiReqError};
use crate::text::string_of;

verus! {

/// A piece of software with its versions.
#[derive(Debug, Clone)]
pub struct SoftwareInfo {
    pub id: i32,
    pub name: String,
    pub description: Option<String>,
    pub install_script_url: Option<String>,
    pub install_command: Option<String>,
    pub versions: Vec<VersionInfo>,
}

/// A version of a piece of software with its platform releases.
#[derive(Debug, Clone)]
pub struct VersionInfo {
    pub id: i32,
    pub version: String,
    pub is_latest: bool,
    pub release_notes: Option<String>,
    pub created_at: Option<String>,
    pub created_by: Option<String>,
    pub platforms: Vec<ReleaseInfo>,
}

/// The release of a version on one platform.
#[derive(Debug, Clone)]
pub struct ReleaseInfo {
    pub platform_code: String,
    pub platform_display_name: Option<String>,
    pub download_url: String,
    pub file_size: Option<i64>,
    pub checksum_sha256: Option<String>,
}

/// A platform.
#[derive(Debug, Clone)]
pub struct PlatformInfo {
    pub id: i32,
    pub code: String,
    pub os: Option<String>,
    pub arch: Option<String>,
    pub display_name: Option<String>,
}

/// The body of a software creation.
#[derive(Debug, Clone)]
pub struct CreateSoftwareReq {
    pub name: String,
    pub description: Option<String>,
    pub install_script_url: Option<String>,
    pub install_command: Option<String>,
}

/// The body of a software update; only the given fields change.
#[derive(Debug, Clone)]
pub struct UpdateSoftwareReq {
    pub description: Option<String>,
    pub install_script_url: Option<String>,
    pub install_command: Option<String>,
}

/// The body of a platform creation.
#[derive(Debug, Clone)]
pub struct CreatePlatformReq {
    pub code: String,
    pub os: Option<String>,
    pub arch: Option<String>,
    pub display_name: Option<String>,
}

/// The body of a version creation.
#[derive(Debug, Clone)]
pub struct CreateVersionReq {
    pub software_name: String,
    pub version: String,
    pub is_latest: Option<bool>,
    pub release_notes: Option<String>,
    pub created_by: Option<String>,
}

/// The body that marks a version as the latest.
#[derive(Debug, Clone)]
pub struct SetLatestVersionReq {
    pub software_name: String,
    pub version: String,
}

/// The body of a release creation or update.
#[derive(Debug, Clone)]
pub struct CreateReleaseReq {
    pub software_name: String,
    pub version: String,
    pub platform_code: String,
    pub download_url: String,
    pub file_size: Option<i64>,
    pub checksum_sha256: Option<String>,
}

/// The path of one piece of software.
pub open spec fn software_path(name: Seq<char>) -> Seq<char> {
    "/api/release/softwares/"@ + name
}

/// The path of the releases of a version.
pub open spec fn release_path(software_name: Seq<char>, version: Seq<char>) -> Seq<char> {
    "/api/release/releases/"@ + software_name + "/"@ + version
}

/// The client of the release service.
pub struct ReleaseApi {
    host: String,
}

impl ReleaseApi {
    /// The service address.
    pub closed spec fn host_view(&self) -> Seq<char> {
        self.host@
    }

    pub fn new(host: &str) -> (res: Self)
        ensures
            res.host_view() == host@,
    {
        Self { host: string_of(host) }
    }

    /// A client for the requests; the reqwest error where none can be built.
    pub fn client_builder(&self) -> (res: Result<reqwest::Client, ApiReqError>)
        ensures
            res matches Err(e) ==> e is ReqError,
    {
        new_http_client()
    }

    /// GET of one piece of software, with its versions.
    pub fn get_software_request(&self, name: &str) -> (res: Result<ApiRequest, ApiReqError>)
        ensures
            request_spec(res, self.host_view(), software_path(name@), HttpMethod::Get, false, None),
    {
        let mut path = String::from_str("/api/release/softwares/");
        path.append(name);
        make_request(self.host.as_str(), path.as_str(), HttpMethod::Get, false, None)
    }

    /// POST of a `CreateSoftwareReq` (JSON body).
    pub fn create_software_request(&self) -> (res: Result<ApiRequest, ApiReqError>)
        ensures
            request_spec(res, self.host_view(), "/api/release/softwares"@, HttpMethod::Post, true, None),
    {
        make_request(self.host.as_str(), "/api/release/softwares", HttpMethod::Post, true, None)
    }

    /// PUT of an `UpdateSoftwareReq` (JSON body) to one piece of software.
    pub fn update_software_request(&self, name: &str) -> (res: Result<ApiRequest, ApiReqError>)
        ensures
            request_spec(res, self.host_view(), software_path(name@), HttpMethod::Put, true, None),
    {
        let mut path = String::from_str("/api/release/softwares/");
        path.append(name);
        make_request(self.host.as_str(), path.as_str(), HttpMethod::Put, true, None)
    }

    /// POST of a `CreatePlatformReq` (JSON body).
    pub fn create_platform_request(&self) -> (res: Result<ApiRequest, ApiReqError>)
        ensures
            request_spec(res, self.host_view(), "/api/release/platforms"@, HttpMethod::Post, true, None),
    {
        make_request(self.host.as_str(), "/api/release/platforms", HttpMethod::Post, true, None)
    }

    /// POST of a `CreateVersionReq` (JSON body).
    pub fn create_version_request(&self) -> (res: Result<ApiRequest, ApiReqError>)
        ensures
            request_spec(res, self.host_view(), "/api/release/versions"@, HttpMethod::Post, true, None),
    {
        make_request(self.host.as_str(), "/api/release/versions", HttpMethod::Post, true, None)
    }

    /// PUT of a `SetLatestVersionReq` (JSON body).
    pub fn set_latest_version_request(&self) -> (res: Result<ApiRequest, ApiReqError>)
        ensures
            request_spec(res, self.host_view(), "/api/release/versions/latest"@, HttpMethod::Put, true, None),
    {
        make_request(self.host.as_str(), "/api/release/versions/latest", HttpMethod::Put, true, None)
    }

    /// POST of a `CreateReleaseReq` (JSON body).
    pub fn create_release_request(&self) -> (res: Result<ApiRequest, ApiReqError>)
        ensures
            request_spec(res, self.host_view(), "/api/release/releases"@, HttpMethod::Post, true, None),
    {
        make_request(self.host.as_str(), "/api/release/releases", HttpMethod::Post, true, None)
    }

    /// GET of all platform releases of a version.
    pub fn get_release_request(&self, software_name: &str, version: &str) -> (res: Result<
        ApiRequest,
        ApiReqError,
    >)
        ensures
            request_spec(res, self.host_view(), release_path(software_name@, version@), HttpMethod::Get, false, None),
    {
        let mut path = String::from_str("/api/release/releases/");
        path.append(software_name);
        path.append("/");
        path.append(version);
        make_request(self.host.as_str(), path.as_str(), HttpMethod::Get, false, None)
    }
}

} // verus!
