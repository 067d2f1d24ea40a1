use rsvr::remote::{progress_report, SyncRun};
use rsvr::shell::shell_outcome;
use rsvr::timefmt::strfmt_timestr;
use rsvr::lz4::{Lz4CompressMethod, Lz4Config, Lz4Sequence};
use rsvr::remote::{
    handler_for, loading_message, progress_prefix, sync_done_message, sync_error_message,
    EFileSchema, ExecAction, FileSyncError, HandlerKind, HttpHandler, NexusHandler,
    RFileSyncer, RemoteFileInfo, S3Handler,
};
use rsvr::settings::{HttpRegionSetting, MultiSetting, NexusRegionSetting, S3RegionSetting};

#[test]
fn schema_names() {
    assert_eq!(EFileSchema::from("http"), EFileSchema::Http);
    assert_eq!(EFileSchema::from("s3"), EFileSchema::S3);
    assert_eq!(EFileSchema::from("nexus"), EFileSchema::Nexus);
    assert_eq!(EFileSchema::from("S3"), EFileSchema::Unknown);
    assert_eq!(EFileSchema::from(""), EFileSchema::Unknown);
    assert_eq!(EFileSchema::default(), EFileSchema::S3);
    assert!(EFileSchema::is_no_progress(EFileSchema::S3));
    assert!(!EFileSchema::is_no_progress(EFileSchema::Http));
}

#[test]
fn remote_file_info_new() {
    let i = RemoteFileInfo::new("plugins/ffmpeg@1.0.0.zip", "ffmpeg@1.0.0.zip", "s3");
    assert_eq!(i.link, "plugins/ffmpeg@1.0.0.zip");
    assert_eq!(i.write_path, "ffmpeg@1.0.0.zip");
    assert_eq!(i.schema, EFileSchema::S3);
}

#[test]
fn download_queue_accepts_by_schema() {
    let mut s = RFileSyncer::default();
    s.append_down(RemoteFileInfo::new("a", "a", "s3")).unwrap();
    s.append_down(RemoteFileInfo::new("https://example.com/f", "f", "http")).unwrap();
    s.append_down(RemoteFileInfo::new("b", "b", "ftp")).unwrap();
    s.append_down(RemoteFileInfo::new("c", "c", "nexus")).unwrap();
    match s.append_down(RemoteFileInfo::new("not a url", "x", "http")) {
        Err(FileSyncError::SyncFailed(m)) => {
            assert_eq!(m, "url parse error!url = not a url, err = relative URL without a base")
        }
        _ => panic!("expected a refusal"),
    }
    let list = s.take_sync_list(ExecAction::Download);
    let links: Vec<&str> = list.iter().map(|i| i.link.as_str()).collect();
    assert_eq!(links, vec!["a", "https://example.com/f", "c"]);
    assert!(s.take_sync_list(ExecAction::Download).is_empty());
}

#[test]
fn upload_queue_takes_local_files_only() {
    let mut s = RFileSyncer::default();
    s.append_up(RemoteFileInfo::new("/tmp/x", "x", "s3"), true).unwrap();
    s.append_up(RemoteFileInfo::new("/nope", "y", "s3"), false).unwrap();
    s.set_download_list(vec![RemoteFileInfo::new("d1", "d1", "s3"), RemoteFileInfo::new("d2", "d2", "s3")]);
    let up = s.take_sync_list(ExecAction::Up);
    assert_eq!(up.len(), 1);
    assert_eq!(up[0].link, "/tmp/x");
    let down = s.take_sync_list(ExecAction::Download);
    assert_eq!(down.len(), 2);
    assert_eq!(down[1].link, "d2");
    s.set_upload_list(vec![RemoteFileInfo::new("u", "u", "s3")]);
    assert_eq!(s.take_sync_list(ExecAction::Up)[0].link, "u");
}

#[test]
fn s3_config_is_kept() {
    let mut s = RFileSyncer::default();
    assert!(s.s3_handler().is_none());
    let cfg = S3RegionSetting::new("ak".into(), "sk".into(), "https://oss.example".into(), "bk".into());
    s.set_s3_config(&cfg);
    assert_eq!(s.s3_handler().unwrap().setting.bucket, "bk");
    assert!(s.http_handler().is_none());
}

#[test]
fn s3_client_config_path_style() {
    let mut st = S3RegionSetting::new("ak".into(), "sk".into(), "https://oss-cn.aliyuncs.com".into(), "b".into());
    let h = S3Handler::new(st.duplicate());
    let c = h.client_config();
    assert!(!c.force_path_style);
    assert_eq!(c.region, "");
    st.end_point = "http://minio.local:9000".to_string();
    st.region = Some("us-east-1".to_string());
    let c = S3Handler::new(st).client_config();
    assert!(c.force_path_style);
    assert_eq!(c.region, "us-east-1");
    assert_eq!(c.access_key, "ak");
    assert_eq!(c.secret_key, "sk");
}

#[test]
fn nexus_object_url() {
    let st = NexusRegionSetting::from_env_values(
        Some("http://nexus.local".into()),
        Some("raw".into()),
        Some("u".into()),
        Some("p".into()),
    );
    let h = NexusHandler::new(st);
    assert_eq!(h.object_url("dir/file.zip").unwrap(), "http://nexus.local/repository/raw/dir/file.zip");
}

#[test]
fn http_handler_refuses_upload() {
    let h = HttpHandler { setting: HttpRegionSetting::default() };
    match h.upload_result() {
        Err(FileSyncError::SyncFailed(m)) => assert_eq!(m, "Http not support upload file!"),
        _ => panic!("expected a refusal"),
    }
}

#[test]
fn handler_routing_and_messages() {
    assert_eq!(handler_for(EFileSchema::S3), HandlerKind::S3);
    assert_eq!(handler_for(EFileSchema::Http), HandlerKind::Http);
    assert_eq!(handler_for(EFileSchema::Unknown), HandlerKind::Http);
    assert_eq!(sync_done_message(ExecAction::Download, "a.zip"), "Saved => a.zip");
    assert_eq!(sync_done_message(ExecAction::Up, "k"), "Uploaded => k");
    assert_eq!(sync_error_message("boom"), "Error => boom");
    assert_eq!(progress_prefix(1, 12), "[1/12]|");
    assert_eq!(loading_message("x"), "s3\t|==>>loadingx");
}

#[test]
fn settings_texts_and_defaults() {
    let n = NexusRegionSetting::from_env_values(Some("e".into()), None, Some("u".into()), None);
    assert_eq!(n.repository, "");
    assert_eq!(n.describe(), "[nexus] \\\nendpoint = e \\\nrepository =  \\\nuser_name = u \\\npassword = ");
    let s = S3RegionSetting::from_env_values(None, None, None, None, None, None);
    assert_eq!(s.access_key, "UNKNOWN S3_ACCESS_KEY");
    assert_eq!(s.access_sec, "UNKNOWN S3_SECRET_KEY");
    assert_eq!(s.end_point, "UNKNOWN S3_ENDPOINT");
    assert_eq!(s.bucket, "UNKNOWN S3_BUCKET");
    assert_eq!(s.region.as_deref(), Some("UNKNOWN S3_BUCKET"));
    assert_eq!(s.path.as_deref(), Some(""));
    let mut t = S3RegionSetting::new("a".into(), "b".into(), "ep".into(), "bk".into());
    assert_eq!(t.describe(), "[s3] \\\nend_point = ep \\\nbucket = bk \\\npath = ");
    t.set_path(Some("p/q".into()));
    assert_eq!(t.describe(), "[s3] \\\nend_point = ep \\\nbucket = bk \\\npath = p/q");
    let _m = MultiSetting::default();
}

#[test]
fn lz4_defaults() {
    let c = Lz4Config::default();
    assert_eq!(c.sequence(), Lz4Sequence::TarLz4);
    assert_eq!(Lz4CompressMethod::default(), Lz4CompressMethod::UNHC);
}

#[test]
fn progress_report_counts_bytes() {
    let (d, m) = progress_report(10, 5, 100).unwrap();
    assert_eq!(d, 15);
    assert_eq!(m, vec![15, 100]);
    assert!(progress_report(4294967290, 6, 10).is_none());
    assert!(progress_report(0, 1, 4294967296).is_none());
    assert_eq!(progress_report(4294967290, 5, 0).unwrap().1, vec![4294967295, 0]);
}

#[test]
fn sync_run_gives_one_outcome_per_file_in_order() {
    let mut s = RFileSyncer::default();
    s.set_upload_list(vec![RemoteFileInfo::new("a", "a", "s3"), RemoteFileInfo::new("b", "b", "http")]);
    let mut run = SyncRun::start(&mut s, ExecAction::Up);
    assert!(s.take_sync_list(ExecAction::Up).is_empty());
    assert_eq!(run.total(), 2);
    assert_eq!(run.current().unwrap().link, "a");
    run.record(Err(FileSyncError::SyncFailed("boom".to_string())));
    assert_eq!(run.index(), 1);
    assert_eq!(run.current().unwrap().link, "b");
    run.record(Ok("b".to_string()));
    assert!(run.current().is_none());
    let out = run.finish();
    assert_eq!(out.len(), 2);
    assert!(out[0].is_err());
    assert_eq!(out[1].as_ref().unwrap(), "b");
}

#[test]
fn shell_outcome_picks_output_by_status() {
    assert_eq!(shell_outcome(true, b"out", b"err"), (true, "out".to_string()));
    assert_eq!(shell_outcome(false, b"out", b"err"), (false, "err".to_string()));
    assert_eq!(shell_outcome(false, b"", &[0x66, 0xff]), (false, "f\u{fffd}".to_string()));
}

#[test]
fn utc_time_formatting() {
    assert_eq!(strfmt_timestr(0, 0, "%Y-%m-%d %H:%M:%S").unwrap(), "1970-01-01 00:00:00");
    assert_eq!(strfmt_timestr(1725029869, 0, "%Y%m%d").unwrap(), "20240830");
    assert!(strfmt_timestr(0, 0, "%Q").is_none());
    assert!(strfmt_timestr(i64::MAX, 0, "%Y").is_none());
}
