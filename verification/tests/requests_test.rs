use rsvr::artifactory::{split_pkg, ArtifactoryApi};
use rsvr::dpm::{DpmSvr, ModelDpm};
use rsvr::gate::GateSvr;
use rsvr::net::HttpMethod;
use rsvr::nexus_api::NexusApi;
use rsvr::picboo::{chk_illegal_isbn, PicbooSvr};
use rsvr::release::ReleaseApi;
use rsvr::resp::{
    map_respvo_data, map_respvo_iserror, map_respvo_iserror_vo, resolve_url, ApiReqError,
    HttpRpcCore, RespVO,
};
use rsvr::settings::NexusRegionSetting;

#[test]
fn split_pkg_reference() {
    assert_eq!(split_pkg("ffmpeg@1.0.0"), ("ffmpeg".to_string(), "1.0.0".to_string()));
    assert_eq!(split_pkg("ffmpeg"), ("ffmpeg".to_string(), "^".to_string()));
    assert_eq!(split_pkg("a@b@c"), ("a".to_string(), "b".to_string()));
    assert_eq!(split_pkg("@x"), ("".to_string(), "x".to_string()));
    assert_eq!(split_pkg("x@"), ("x".to_string(), "".to_string()));
}

#[test]
fn resolve_url_joins_path_to_host() {
    assert_eq!(
        resolve_url("http://example.com/base/", "/api/x?y=1").unwrap(),
        "http://example.com/api/x?y=1"
    );
    assert!(matches!(resolve_url("not a url", "/api"), Err(ApiReqError::UrlError(_))));
}

#[test]
fn artifactory_find_pkg_request() {
    let api = ArtifactoryApi::new("http://example.com".to_string(), "sid=1".to_string());
    let r = api.get_find_pkg_request("ffmpeg@1.0.0").unwrap();
    assert_eq!(r.url, "http://example.com/api/artifactory/find?name=ffmpeg&ver=1.0.0");
    assert_eq!(r.method, HttpMethod::Get);
    assert_eq!(r.cookie.as_deref(), Some("sid=1"));
    assert!(!r.json_content);
    let r = api.get_find_pkg_request("ffmpeg").unwrap();
    assert_eq!(r.url, "http://example.com/api/artifactory/find?name=ffmpeg&ver=^");
}

#[test]
fn artifactory_other_requests() {
    let api = ArtifactoryApi::new("https://h.example".to_string(), "c".to_string());
    assert_eq!(
        api.get_pkg_list_request("py").unwrap().url,
        "https://h.example/api/artifactory/list?runtime=py"
    );
    assert_eq!(
        api.get_artifactory_download_url_request(-7).unwrap().url,
        "https://h.example/api/artifactory/get_object_presigned_url?id=-7"
    );
    let add = api.put_artifactory_add_request().unwrap();
    assert_eq!(add.url, "https://h.example/api/artifactory/add");
    assert_eq!(add.method, HttpMethod::Put);
    assert!(add.json_content);
    let rt = api.post_add_runtime_request().unwrap();
    assert_eq!(rt.url, "https://h.example/api/artifactory/runtime/add");
    assert_eq!(rt.method, HttpMethod::Post);
    let list = api.get_runtime_list_request(0, 20).unwrap();
    assert_eq!(list.url, "https://h.example/api/artifactory/runtime/list?index=0&cnt=20");
    assert!(list.json_content);
    let one = api.get_runtime_one_request("node").unwrap();
    assert_eq!(one.url, "https://h.example/api/artifactory/runtime/one?name=node");
    assert_eq!(one.cookie, None);
}

#[test]
fn bad_host_gives_url_error() {
    let api = ArtifactoryApi::new("no scheme".to_string(), "".to_string());
    assert!(matches!(api.get_pkg_list_request("x"), Err(ApiReqError::UrlError(_))));
    assert!(matches!(api.get_runtime_list_request(1, 2), Err(ApiReqError::UrlError(_))));
}

#[test]
fn dpm_requests() {
    let svr = DpmSvr::new("http://dpm.local".to_string(), "k".to_string());
    let r = svr.get_pkg_info_request("tool@2").unwrap();
    assert_eq!(r.url, "http://dpm.local/api/dpm/info?name=tool&ver=2");
    assert_eq!(r.cookie.as_deref(), Some("k"));
    assert_eq!(svr.get_pkg_list_request("rt").unwrap().url, "http://dpm.local/api/dpm/list?runtime=rt");
    let add = svr.put_pkg_add_request().unwrap();
    assert_eq!(add.url, "http://dpm.local/api/dpm/add");
    assert_eq!(add.method, HttpMethod::Put);
    assert!(add.json_content);
}

#[test]
fn model_dpm_set_md5() {
    let mut m = ModelDpm::default();
    m.name = "n".to_string();
    m.set_md5("d41d8cd98f00b204e9800998ecf8427e".to_string());
    assert_eq!(m.md5, "d41d8cd98f00b204e9800998ecf8427e");
    assert_eq!(m.name, "n");
}

#[test]
fn gate_requests() {
    let mut svr = GateSvr::new("http://gate.local".to_string(), None);
    assert_eq!(
        svr.get_checkupdate_request("picboo", 1).unwrap().url,
        "http://gate.local/api/app_ver/picboo/checkupdate/1"
    );
    assert_eq!(
        svr.get_appevent_request("picboo", "checkupdate").unwrap().url,
        "http://gate.local/api/app_event/picboo/checkupdate/all"
    );
    svr.set_host("http://other.local");
    svr.set_authkey("a");
    let r = svr.get_latest_appvers_request("app", "1.2").unwrap();
    assert_eq!(r.url, "http://other.local/api/app_events/app/1.2/all");
    assert_eq!(r.cookie, None);
    assert_eq!(
        svr.get_checkupdate_request("x", 4294967295).unwrap().url,
        "http://other.local/api/app_ver/x/checkupdate/4294967295"
    );
}

#[test]
fn picboo_isbn_checks_and_requests() {
    assert!(chk_illegal_isbn("7108018802").is_ok());
    assert!(chk_illegal_isbn("9787572804977").is_ok());
    match chk_illegal_isbn("123") {
        Err(ApiReqError::CustomError(m)) => assert_eq!(m, "params:isbn illegal"),
        _ => panic!("expected a refusal"),
    }
    let svr = PicbooSvr::new(HttpRpcCore { host: "http://pb.local".to_string(), cookie: None }, None);
    let add = svr.isbn_add_request("9787572804977").unwrap();
    assert_eq!(add.url, "http://pb.local/api/picboo/isbn/add/9787572804977");
    assert_eq!(add.method, HttpMethod::Post);
    assert_eq!(add.cookie.as_deref(), Some(""));
    assert!(add.json_content);
    let mut svr = PicbooSvr::from("http://pb.local".to_string(), None, Some("key".to_string()));
    svr.set_authkey("ck");
    let find = svr.find_isbn_request("7108018802").unwrap();
    assert_eq!(find.url, "http://pb.local/api/picboo/isbn/find/7108018802");
    assert_eq!(find.method, HttpMethod::Get);
    assert_eq!(find.cookie.as_deref(), Some("ck"));
    assert!(matches!(svr.find_isbn_request("12"), Err(ApiReqError::CustomError(_))));
}

#[test]
fn release_requests() {
    let api = ReleaseApi::new("https://hfrog.gamesci-lite.com");
    assert_eq!(
        api.get_software_request("hfrog").unwrap().url,
        "https://hfrog.gamesci-lite.com/api/release/softwares/hfrog"
    );
    let c = api.create_software_request().unwrap();
    assert_eq!(c.url, "https://hfrog.gamesci-lite.com/api/release/softwares");
    assert_eq!(c.method, HttpMethod::Post);
    assert!(c.json_content);
    assert_eq!(api.update_software_request("x").unwrap().method, HttpMethod::Put);
    assert_eq!(
        api.create_platform_request().unwrap().url,
        "https://hfrog.gamesci-lite.com/api/release/platforms"
    );
    assert_eq!(
        api.create_version_request().unwrap().url,
        "https://hfrog.gamesci-lite.com/api/release/versions"
    );
    let l = api.set_latest_version_request().unwrap();
    assert_eq!(l.url, "https://hfrog.gamesci-lite.com/api/release/versions/latest");
    assert_eq!(l.method, HttpMethod::Put);
    assert_eq!(
        api.create_release_request().unwrap().url,
        "https://hfrog.gamesci-lite.com/api/release/releases"
    );
    assert_eq!(
        api.get_release_request("hfrog", "1.0.0").unwrap().url,
        "https://hfrog.gamesci-lite.com/api/release/releases/hfrog/1.0.0"
    );
}

#[test]
fn nexus_api_component_host() {
    let api = NexusApi::new(NexusRegionSetting::from_env_values(
        Some("http://nexus.local:8081".to_string()),
        None,
        None,
        None,
    ));
    assert_eq!(api.download_component(), "http://nexus.local:8081");
}

#[test]
fn respvo_checks() {
    let ok = RespVO { data: Some(5u8), code: 0, msg: "ok".to_string() };
    assert_eq!(map_respvo_data(ok).unwrap(), 5);
    let bad = RespVO { data: Some(5u8), code: 1001, msg: "exists".to_string() };
    match map_respvo_data(bad) {
        Err(ApiReqError::RespError(m, c)) => {
            assert_eq!(m, "exists");
            assert_eq!(c, 1001);
        }
        _ => panic!("expected a response error"),
    }
    let empty: RespVO<u8> = RespVO { data: None, code: 0, msg: "".to_string() };
    match map_respvo_data(empty) {
        Err(ApiReqError::RespError(m, c)) => {
            assert_eq!(m, "data is none");
            assert_eq!(c, 999);
        }
        _ => panic!("expected a response error"),
    }
    assert!(map_respvo_iserror(RespVO { data: None::<u8>, code: 3, msg: String::new() }));
    assert!(!map_respvo_iserror(RespVO { data: None::<u8>, code: 0, msg: String::new() }));
    let (is_error, vo) = map_respvo_iserror_vo(RespVO { data: Some(1u8), code: 0, msg: String::new() }).unwrap();
    assert!(!is_error);
    let (is_error, vo2) = map_respvo_iserror_vo(RespVO { data: None::<u8>, code: 7, msg: "x".to_string() }).unwrap();
    assert!(is_error);
    assert_eq!(vo2.code, 7);
    assert_eq!(vo.data, Some(1));
}
