//! The artifactory service: packages and runtimes.
use vstd::prelude::*;
use vstd::string::*;
use crate::net::{url_set_query, url_with_query_text, ApiRequest, HttpMethod};
use crate::resp::{make_request, new_http_client, request_spec, resolve_text, resolve_url, ApiReqError};
use crate::text::{
    concat4, decimal, decimal_value, first_index_of, is_decimal_text, is_signed_decimal_text,
    law_decimal_reads_back, law_signed_decimal_reads_back, segment_after, segment_before,
    signed_decimal, signed_decimal_value, string_of, u64_to_text, i64_to_text,
};

verus! {

/// The package name of a `name@ver` reference: the text before the first
/// `@`, or the whole reference where there is none.
pub open spec fn pkg_name(pkg: Seq<char>) -> Seq<char> {
    if pkg.contains('@') {
        segment_before(pkg, '@')
    } else {
        pkg
    }
}

/// The version of a `name@ver` reference: the text between the first and
/// the second `@` (or the end), or `^` where there is no `@`.
pub open spec fn pkg_ver(pkg: Seq<char>) -> Seq<char> {
    if pkg.contains('@') {
        segment_before(segment_after(pkg, '@'), '@')
    } else {
        "^"@
    }
}

/// Joining a name and a version, neither holding `@`, into `name@ver` and
/// splitting it again gives back the name and the version; a name alone
/// stands for its latest version `^`.
pub proof fn law_pkg_reference_roundtrip(name: Seq<char>, ver: Seq<char>)
    requires
        !name.contains('@'),
        !ver.contains('@'),
    ensures
        pkg_name(name + "@"@ + ver) == name,
        pkg_ver(name + "@"@ + ver) == ver,
        pkg_name(name) == name,
        pkg_ver(name) == "^"@,
{
    reveal_strlit("@");
    assert("@"@ =~= seq!['@']);
    let s = name + "@"@ + ver;
    assert(s[name.len() as int] == '@');
    assert(s.contains('@'));
    crate::text::lemma_segment_before_prefix(name, '@', ver);
    assert(segment_before(s, '@') == name);
    assert(segment_after(s, '@') =~= ver);
    crate::text::lemma_segment_before_prefix(ver, '@', Seq::empty());
}

/// Splits a `name@ver` package reference into name and version.
pub fn split_pkg(pkg: &str) -> (res: (String, String))
    ensures
        res.0@ == pkg_name(pkg@),
        res.1@ == pkg_ver(pkg@),
{
    match first_index_of(pkg, '@') {
        Some(i) => {
            let n = pkg.unicode_len();
            let name = pkg.substring_char(0, i);
            let rest = pkg.substring_char(i + 1, n);
            proof {
                assert(pkg@.contains('@'));
                assert(name@ =~= segment_before(pkg@, '@'));
                assert(rest@ =~= segment_after(pkg@, '@'));
            }
            let ver = match first_index_of(rest, '@') {
                Some(j) => rest.substring_char(0, j),
                None => rest,
            };
            (string_of(name), string_of(ver))
        },
        None => (string_of(pkg), string_of("^")),
    }
}

/// The path of the package lookup.
pub open spec fn find_pkg_path(pkg: Seq<char>) -> Seq<char> {
    "/api/artifactory/find?name="@ + pkg_name(pkg) + "&ver="@ + pkg_ver(pkg)
}

/// The path of the package list of a runtime.
pub open spec fn pkg_list_path(rt_name: Seq<char>) -> Seq<char> {
    "/api/artifactory/list?runtime="@ + rt_name
}

/// The path of the download link of a package.
pub open spec fn download_url_path(id: int) -> Seq<char> {
    "/api/artifactory/get_object_presigned_url?id="@ + signed_decimal(id)
}

/// The query of a page of the runtime list.
pub open spec fn runtime_list_query(page_idx: nat, page_cnt: nat) -> Seq<char> {
    "index="@ + decimal(page_idx) + "&cnt="@ + decimal(page_cnt)
}

/// The query of a runtime-list page carries the page index itself and the
/// page size, each as a number in base 10: it is `index=`, digits that read
/// back as `page_idx`, `&cnt=`, and digits that read back as `page_cnt`.
pub proof fn law_runtime_list_query_fields(page_idx: nat, page_cnt: nat)
    ensures
        exists|a: Seq<char>, b: Seq<char>|
            #![trigger decimal_value(a), decimal_value(b)]
            {
                &&& runtime_list_query(page_idx, page_cnt) == "index="@ + a + "&cnt="@ + b
                &&& is_decimal_text(a)
                &&& is_decimal_text(b)
                &&& decimal_value(a) == page_idx
                &&& decimal_value(b) == page_cnt
            },
{
    law_decimal_reads_back(page_idx);
    law_decimal_reads_back(page_cnt);
    let a = decimal(page_idx);
    let b = decimal(page_cnt);
    assert(runtime_list_query(page_idx, page_cnt) == "index="@ + a + "&cnt="@ + b);
}

/// The download link of a package asks for that package's id: the path is
/// the presigned-URL path followed by a text that reads back, in base 10,
/// as the id.
pub proof fn law_download_url_path_id(id: int)
    ensures
        exists|t: Seq<char>|
            #![trigger signed_decimal_value(t)]
            {
                &&& download_url_path(id) == "/api/artifactory/get_object_presigned_url?id="@ + t
                &&& is_signed_decimal_text(t)
                &&& signed_decimal_value(t) == id
            },
{
    law_signed_decimal_reads_back(id);
    let t = signed_decimal(id);
    assert(download_url_path(id) == "/api/artifactory/get_object_presigned_url?id="@ + t);
}

/// The path of the versions of one runtime.
pub open spec fn runtime_one_path(name: Seq<char>) -> Seq<char> {
    "/api/artifactory/runtime/one?name="@ + name
}

/// The runtime to add: its name and version.
pub struct AddRuntime<'r> {
    pub runtime_name: &'r str,
    pub runtime_ver: &'r str,
}

/// The body of a runtime addition.
pub struct Runtime<'r> {
    pub runtime: &'r str,
    pub ver_str: &'r str,
}

/// The client of the artifactory service.
pub struct ArtifactoryApi {
    host: String,
    cookie: String,
}

impl ArtifactoryApi {
    /// The service address.
    pub closed spec fn host_view(&self) -> Seq<char> {
        self.host@
    }

    /// The cookie sent with the requests.
    pub closed spec fn cookie_view(&self) -> Seq<char> {
        self.cookie@
    }

    pub fn new(host: String, cookie: String) -> (res: Self)
        ensures
            res.host_view() == host@,
            res.cookie_view() == cookie@,
    {
        Self { host, cookie }
    }

    /// A client for the requests; the reqwest error where none can be built.
    pub fn client_builder(&self) -> (res: Result<reqwest::Client, ApiReqError>)
        ensures
            res matches Err(e) ==> e is ReqError,
    {
        new_http_client()
    }

    /// GET of the package that a `name@ver` reference names (`^` where no
    /// version is given), with the cookie.
    pub fn get_find_pkg_request(&self, pkg: &str) -> (res: Result<ApiRequest, ApiReqError>)
        ensures
            request_spec(
                res,
                self.host_view(),
                find_pkg_path(pkg@),
                HttpMethod::Get,
                false,
                Some(self.cookie_view()),
            ),
    {
        let (name, ver) = split_pkg(pkg);
        let path = concat4("/api/artifactory/find?name=", name.as_str(), "&ver=", ver.as_str());
        make_request(self.host.as_str(), path.as_str(), HttpMethod::Get, false, Some(self.cookie.as_str()))
    }

    /// GET of the package list of a runtime, with the cookie.
    pub fn get_pkg_list_request(&self, rt_name: &str) -> (res: Result<ApiRequest, ApiReqError>)
        ensures
            request_spec(
                res,
                self.host_view(),
                pkg_list_path(rt_name@),
                HttpMethod::Get,
                false,
                Some(self.cookie_view()),
            ),
    {
        let mut path = String::from_str("/api/artifactory/list?runtime=");
        path.append(rt_name);
        make_request(self.host.as_str(), path.as_str(), HttpMethod::Get, false, Some(self.cookie.as_str()))
    }

    /// GET of the download link of a package, with the cookie.
    pub fn get_artifactory_download_url_request(&self, id: i32) -> (res: Result<
        ApiRequest,
        ApiReqError,
    >)
        ensures
            request_spec(
                res,
                self.host_view(),
                download_url_path(id as int),
                HttpMethod::Get,
                false,
                Some(self.cookie_view()),
            ),
    {
        let mut path = String::from_str("/api/artifactory/get_object_presigned_url?id=");
        let idt = i64_to_text(id as i64);
        path.append(idt.as_str());
        make_request(self.host.as_str(), path.as_str(), HttpMethod::Get, false, Some(self.cookie.as_str()))
    }

    /// PUT of a package description (JSON body), with the cookie.
    pub fn put_artifactory_add_request(&self) -> (res: Result<ApiRequest, ApiReqError>)
        ensures
            request_spec(
                res,
                self.host_view(),
                "/api/artifactory/add"@,
                HttpMethod::Put,
                true,
                Some(self.cookie_view()),
            ),
    {
        make_request(self.host.as_str(), "/api/artifactory/add", HttpMethod::Put, true, Some(self.cookie.as_str()))
    }

    /// POST of a new runtime (JSON body of a `Runtime`), with the cookie.
    pub fn post_add_runtime_request(&self) -> (res: Result<ApiRequest, ApiReqError>)
        ensures
            request_spec(
                res,
                self.host_view(),
                "/api/artifactory/runtime/add"@,
                HttpMethod::Post,
                true,
                Some(self.cookie_view()),
            ),
    {
        make_request(
            self.host.as_str(),
            "/api/artifactory/runtime/add",
            HttpMethod::Post,
            true,
            Some(self.cookie.as_str()),
        )
    }

    /// GET of a page of the runtime list (the query set on the resolved
    /// URL), JSON content type, with the cookie.
    pub fn get_runtime_list_request(&self, page_idx: u64, page_cnt: u64) -> (res: Result<
        ApiRequest,
        ApiReqError,
    >)
        ensures
            res is Ok <==> (resolve_text(self.host_view(), "/api/artifactory/runtime/list"@) matches Some(u)
                && url_with_query_text(u, runtime_list_query(page_idx as nat, page_cnt as nat)) is Some),
            res matches Ok(r) ==> {
                &&& resolve_text(self.host_view(), "/api/artifactory/runtime/list"@) matches Some(u)
                &&& url_with_query_text(u, runtime_list_query(page_idx as nat, page_cnt as nat))
                    == Some(r.url@)
                &&& r.method == HttpMethod::Get
                &&& r.json_content
                &&& (r.cookie matches Some(c) && c@ == self.cookie_view())
            },
            res matches Err(e) ==> e is UrlError,
    {
        let base = resolve_url(self.host.as_str(), "/api/artifactory/runtime/list")?;
        let idx = u64_to_text(page_idx);
        let cnt = u64_to_text(page_cnt);
        let query = concat4("index=", idx.as_str(), "&cnt=", cnt.as_str());
        let url = match url_set_query(base.as_str(), query.as_str()) {
            Ok(u) => u,
            Err(e) => {
                return Err(ApiReqError::UrlError(e));
            },
        };
        Ok(
            ApiRequest {
                method: HttpMethod::Get,
                url,
                json_content: true,
                cookie: Some(self.cookie.clone()),
            },
        )
    }

    /// GET of the versions of one runtime, without headers.
    pub fn get_runtime_one_request(&self, name: &str) -> (res: Result<ApiRequest, ApiReqError>)
        ensures
            request_spec(res, self.host_view(), runtime_one_path(name@), HttpMethod::Get, false, None),
    {
        let mut path = String::from_str("/api/artifactory/runtime/one?name=");
        path.append(name);
        make_request(self.host.as_str(), path.as_str(), HttpMethod::Get, false, None)
    }
}

} // verus!
