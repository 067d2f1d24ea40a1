//! Remote file sync: file schemas, the transfer queues, and the decisions of
//! the S3, Nexus and HTTP handlers.
use std::collections::VecDeque;
use vstd::prelude::*;
use vstd::string::*;
use crate::net::{url_error_description, url_parse, url_parse_error_text, url_parse_text};
use crate::settings::{HttpRegionSetting, MultiSetting, NexusRegionSetting, S3RegionSetting};
use crate::text::{contains_text, has_substring, str_equal, string_of, u64_to_text, decimal};

verus! {

/// The `std::fmt::Error` type.
#[verifier::external_type_specification]
#[verifier::external_body]
pub struct ExFmtError(std::fmt::Error);

/// The `std::io::Error` type.
#[verifier::external_type_specification]
#[verifier::external_body]
pub struct ExIoError(std::io::Error);

/// The error of a progress bar template of indicatif.
#[verifier::external_type_specification]
#[verifier::external_body]
pub struct ExTemplateError(indicatif::style::TemplateError);

/// The error of the reqwest middleware client.
#[verifier::external_type_specification]
#[verifier::external_body]
pub struct ExMiddlewareError(reqwest_middleware::Error);

/// The error of a strfmt formatting.
#[verifier::external_type_specification]
#[verifier::external_body]
pub struct ExStrFmtError(strfmt::FmtError);

/// The text that `strfmt::strfmt` makes of `template` with the variables
/// `vars` (a later pair replacing an earlier one of the same key), or `None`
/// where it fails.
pub uninterp spec fn strfmt_text(template: Seq<char>, vars: Seq<(Seq<char>, Seq<char>)>) -> Option<Seq<char>>;

/// Calls `strfmt::strfmt` with the variables collected into a `HashMap`.
/// Claimed: it succeeds exactly where the named result is `Some`, and then
/// gives that text. Which `FmtError` comes on failure is left unsaid.
#[verifier::external_body]
pub(crate) fn strfmt_format(template: &str, vars: &Vec<(String, String)>) -> (res: Result<String, strfmt::FmtError>)
    ensures
        res is Ok <==> strfmt_text(template@, vars.deep_view()) is Some,
        res matches Ok(t) ==> strfmt_text(template@, vars.deep_view()) == Some(t@),
{
    let map: std::collections::HashMap<String, String> = vars.iter().cloned().collect();
    strfmt::strfmt(template, &map)
}

/// Why a file sync failed.
#[derive(Debug)]
pub enum FileSyncError {
    FmtError(std::fmt::Error),
    IoError(std::io::Error),
    SyncFailed(String),
    LoginFiled(String),
    LoggerError(indicatif::style::TemplateError),
    ReqwestError(reqwest::Error),
    RequestMiddleError(reqwest_middleware::Error),
    AwsS3SDKError(String),
    UrlStrFmtError(strfmt::FmtError),
}

/// How a remote file is reached.
#[derive(Default, Debug, Clone, Copy, PartialEq, Eq, Structural)]
pub enum EFileSchema {
    #[default]
    S3,
    Http,
    Nexus,
    Unknown,
}

/// The schema that a scheme name stands for.
pub open spec fn schema_of(name: Seq<char>) -> EFileSchema {
    if name == "http"@ {
        EFileSchema::Http
    } else if name == "s3"@ {
        EFileSchema::S3
    } else if name == "nexus"@ {
        EFileSchema::Nexus
    } else {
        EFileSchema::Unknown
    }
}

impl EFileSchema {
    /// The schema that a scheme name stands for: `http`, `s3` and `nexus`,
    /// anything else being unknown.
    pub fn from_name(value: &str) -> (res: EFileSchema)
        ensures
            res == schema_of(value@),
    {
        if str_equal(value, "http") {
            EFileSchema::Http
        } else if str_equal(value, "s3") {
            EFileSchema::S3
        } else if str_equal(value, "nexus") {
            EFileSchema::Nexus
        } else {
            EFileSchema::Unknown
        }
    }

    /// Whether transfers of this schema report no byte progress (S3 only).
    pub fn is_no_progress(schema: EFileSchema) -> (res: bool)
        ensures
            res == (schema == EFileSchema::S3),
    {
        schema == EFileSchema::S3
    }
}

impl<'a> From<&'a str> for EFileSchema {
    fn from(value: &'a str) -> (res: Self) {
        EFileSchema::from_name(value)
    }
}

impl<'a> vstd::std_specs::convert::FromSpecImpl<&'a str> for EFileSchema {
    open spec fn obeys_from_spec() -> bool {
        true
    }

    open spec fn from_spec(v: &'a str) -> Self {
        schema_of(v@)
    }
}

/// Whether a transfer goes down or up.
#[derive(Debug, Clone, Copy, PartialEq, Eq, Structural)]
pub enum ExecAction {
    Download,
    Up,
}

/// One file to transfer: the remote (or, for uploads, local) link, where to
/// write it, and how it is reached.
#[derive(Default, Debug, Clone)]
pub struct RemoteFileInfo {
    pub link: String,
    pub write_path: String,
    pub schema: EFileSchema,
}

impl RemoteFileInfo {
    pub fn new(link: &str, write_path: &str, scheme: &str) -> (res: RemoteFileInfo)
        ensures
            res.link@ == link@,
            res.write_path@ == write_path@,
            res.schema == schema_of(scheme@),
    {
        Self {
            link: string_of(link),
            write_path: string_of(write_path),
            schema: EFileSchema::from_name(scheme),
        }
    }
}

/// The S3 client parameters that a setting gives.
#[derive(Debug)]
pub struct S3ClientConfig {
    pub access_key: String,
    pub secret_key: String,
    pub region: String,
    pub endpoint: String,
    pub force_path_style: bool,
}

/// The handler of S3 transfers.
#[derive(Debug)]
pub struct S3Handler {
    pub setting: S3RegionSetting,
}

impl S3Handler {
    pub fn new(st: S3RegionSetting) -> (res: Self)
        ensures
            res.setting == st,
    {
        Self { setting: st }
    }

    /// The client parameters: the setting's credentials and endpoint, its
    /// region (empty where there is none), and path-style addressing unless
    /// the endpoint names `oss`.
    pub fn client_config(&self) -> (res: S3ClientConfig)
        ensures
            res.access_key == self.setting.access_key,
            res.secret_key == self.setting.access_sec,
            res.endpoint == self.setting.end_point,
            res.region@ == match self.setting.region {
                Some(r) => r@,
                None => Seq::<char>::empty(),
            },
            res.force_path_style == !has_substring(self.setting.end_point@, "oss"@),
    {
        let region = match &self.setting.region {
            Some(r) => r.clone(),
            None => String::new(),
        };
        S3ClientConfig {
            access_key: self.setting.access_key.clone(),
            secret_key: self.setting.access_sec.clone(),
            region,
            endpoint: self.setting.end_point.clone(),
            force_path_style: !contains_text(self.setting.end_point.as_str(), "oss"),
        }
    }
}

/// The handler of transfers from a Nexus repository.
#[derive(Debug)]
pub struct NexusHandler {
    pub setting: NexusRegionSetting,
}

/// The template of the URL of a file in a Nexus repository.
pub open spec fn nexus_url_template() -> Seq<char> {
    "{endpoint}/repository/{repo_name}/{file_name}"@
}

/// The variables of the Nexus URL template for a file.
pub open spec fn nexus_url_vars(setting: NexusRegionSetting, file_name: Seq<char>) -> Seq<(Seq<char>, Seq<char>)> {
    seq![
        ("endpoint"@, setting.endpoint@),
        ("repo_name"@, setting.repository@),
        ("file_name"@, file_name),
    ]
}

impl NexusHandler {
    pub fn new(setting: NexusRegionSetting) -> (res: Self)
        ensures
            res.setting == setting,
    {
        NexusHandler { setting }
    }

    /// The URL of a file of the repository: the template filled with the
    /// endpoint, the repository and the file name.
    pub fn object_url(&self, file_name: &str) -> (res: Result<String, FileSyncError>)
        ensures
            res is Ok <==> strfmt_text(nexus_url_template(), nexus_url_vars(self.setting, file_name@)) is Some,
            res matches Ok(u) ==> strfmt_text(nexus_url_template(), nexus_url_vars(self.setting, file_name@)) == Some(u@),
            res is Err ==> (res matches Err(FileSyncError::UrlStrFmtError(_))),
    {
        let mut vars: Vec<(String, String)> = Vec::new();
        vars.push((string_of("endpoint"), self.setting.endpoint.clone()));
        vars.push((string_of("repo_name"), self.setting.repository.clone()));
        vars.push((string_of("file_name"), string_of(file_name)));
        proof {
            assert(vars.deep_view() =~= nexus_url_vars(self.setting, file_name@));
        }
        match strfmt_format("{endpoint}/repository/{repo_name}/{file_name}", &vars) {
            Ok(u) => Ok(u),
            Err(e) => Err(FileSyncError::UrlStrFmtError(e)),
        }
    }
}

/// The handler of HTTP downloads.
#[derive(Debug)]
pub struct HttpHandler {
    pub setting: HttpRegionSetting,
}

impl HttpHandler {
    /// What an HTTP upload gives: always a refusal.
    pub fn upload_result(&self) -> (res: Result<String, FileSyncError>)
        ensures
            res matches Err(FileSyncError::SyncFailed(m)) && m@ == "Http not support upload file!"@,
    {
        Err(FileSyncError::SyncFailed(string_of("Http not support upload file!")))
    }
}

/// Which handler transfers a file.
#[derive(Debug, Clone, Copy, PartialEq, Eq, Structural)]
pub enum HandlerKind {
    S3,
    Http,
}

/// The handler of a schema: S3 files go through S3, all others through HTTP.
pub fn handler_for(schema: EFileSchema) -> (res: HandlerKind)
    ensures
        res == (if schema == EFileSchema::S3 {
            HandlerKind::S3
        } else {
            HandlerKind::Http
        }),
{
    match schema {
        EFileSchema::S3 => HandlerKind::S3,
        _ => HandlerKind::Http,
    }
}

/// The line shown when a transfer ends well.
pub fn sync_done_message(action: ExecAction, loc: &str) -> (res: String)
    ensures
        res@ == (match action {
            ExecAction::Download => "Saved => "@,
            ExecAction::Up => "Uploaded => "@,
        }) + loc@,
{
    let mut s = match action {
        ExecAction::Download => string_of("Saved => "),
        ExecAction::Up => string_of("Uploaded => "),
    };
    s.append(loc);
    s
}

/// The line shown when a transfer fails, given the error's text.
pub fn sync_error_message(err_text: &str) -> (res: String)
    ensures
        res@ == "Error => "@ + err_text@,
{
    let mut s = string_of("Error => ");
    s.append(err_text);
    s
}

/// The prefix of the progress line of the `cur`-th of `max` transfers.
pub fn progress_prefix(cur: u32, max: u32) -> (res: String)
    ensures
        res@ == "["@ + decimal(cur as nat) + "/"@ + decimal(max as nat) + "]|"@,
{
    let mut s = string_of("[");
    let c = u64_to_text(cur as u64);
    s.append(c.as_str());
    s.append("/");
    let m = u64_to_text(max as u64);
    s.append(m.as_str());
    s.append("]|");
    s
}

/// The line shown while a file is loading.
pub fn loading_message(link: &str) -> (res: String)
    ensures
        res@ == "s3\t|==>>loading"@ + link@,
{
    let mut s = string_of("s3\t|==>>loading");
    s.append(link);
    s
}

/// The transfer queues and the handlers of a sync run.
pub struct RFileSyncer {
    up_list: VecDeque<RemoteFileInfo>,
    dw_list: VecDeque<RemoteFileInfo>,
    multi_setting: MultiSetting,
    cur_dw_process: usize,
    s3_handler: Option<S3Handler>,
    http_handler: Option<HttpHandler>,
}

impl RFileSyncer {
    /// The files queued for upload, first to go first.
    pub closed spec fn up_view(&self) -> Seq<RemoteFileInfo> {
        self.up_list@
    }

    /// The files queued for download, first to go first.
    pub closed spec fn down_view(&self) -> Seq<RemoteFileInfo> {
        self.dw_list@
    }

    /// The S3 setting of the run, if one was set.
    pub closed spec fn s3_setting(&self) -> Option<S3RegionSetting> {
        match self.s3_handler {
            Some(h) => Some(h.setting),
            None => None,
        }
    }

    /// Whether an HTTP handler is set.
    pub closed spec fn has_http_handler(&self) -> bool {
        self.http_handler is Some
    }

    /// How many transfers were done so far.
    pub closed spec fn done_count(&self) -> nat {
        self.cur_dw_process as nat
    }

    /// The S3 handler of the run, if one was set.
    pub fn s3_handler(&self) -> (res: Option<&S3Handler>)
        ensures
            match res {
                Some(h) => self.s3_setting() == Some(h.setting),
                None => self.s3_setting() is None,
            },
    {
        match &self.s3_handler {
            Some(h) => Some(h),
            None => None,
        }
    }

    /// The HTTP handler of the run, if one was set.
    pub fn http_handler(&self) -> (res: Option<&HttpHandler>)
        ensures
            res is Some <==> self.has_http_handler(),
    {
        match &self.http_handler {
            Some(h) => Some(h),
            None => None,
        }
    }

    /// Sets the S3 setting and makes the S3 handler from it.
    pub fn set_s3_config(&mut self, config: &S3RegionSetting)
        ensures
            final(self).s3_setting() == Some(*config),
            final(self).up_view() == old(self).up_view(),
            final(self).down_view() == old(self).down_view(),
            final(self).has_http_handler() == old(self).has_http_handler(),
            final(self).done_count() == old(self).done_count(),
    {
        self.s3_handler = Some(S3Handler { setting: config.duplicate() });
    }

    /// Queues a file for upload where its link names a local file
    /// (`link_is_file`); otherwise leaves the queue as it was.
    pub fn append_up(&mut self, info: RemoteFileInfo, link_is_file: bool) -> (res: Result<
        &Self,
        FileSyncError,
    >)
        ensures
            res is Ok,
            final(self).up_view() == if link_is_file {
                old(self).up_view().push(info)
            } else {
                old(self).up_view()
            },
            final(self).down_view() == old(self).down_view(),
            final(self).s3_setting() == old(self).s3_setting(),
            final(self).has_http_handler() == old(self).has_http_handler(),
            final(self).done_count() == old(self).done_count(),
    {
        if link_is_file {
            self.up_list.push_back(info);
        }
        Ok(self)
    }

    /// Queues a file for download: S3 and Nexus files always, HTTP files
    /// whose link parses as a URL (refused with the parse error otherwise),
    /// and files of an unknown schema never.
    pub fn append_down(&mut self, info: RemoteFileInfo) -> (res: Result<&Self, FileSyncError>)
        ensures
            info.schema == EFileSchema::Http && url_parse_text(info.link@) is None ==> {
                &&& res matches Err(FileSyncError::SyncFailed(m))
                &&& m@ == "url parse error!url = "@ + info.link@ + ", err = "@ + url_parse_error_text(
                    info.link@,
                )
                &&& url_error_description(url_parse_error_text(info.link@))
                &&& final(self).down_view() == old(self).down_view()
            },
            !(info.schema == EFileSchema::Http && url_parse_text(info.link@) is None) ==> {
                &&& res is Ok
                &&& final(self).down_view() == if info.schema == EFileSchema::Unknown {
                    old(self).down_view()
                } else {
                    old(self).down_view().push(info)
                }
            },
            final(self).up_view() == old(self).up_view(),
            final(self).s3_setting() == old(self).s3_setting(),
            final(self).has_http_handler() == old(self).has_http_handler(),
            final(self).done_count() == old(self).done_count(),
    {
        let accept = match info.schema {
            EFileSchema::S3 | EFileSchema::Nexus => true,
            EFileSchema::Http => match url_parse(info.link.as_str()) {
                Ok(_) => true,
                Err(f) => {
                    let et = f.text;
                    let mut msg = string_of("url parse error!url = ");
                    msg.append(info.link.as_str());
                    msg.append(", err = ");
                    msg.append(et.as_str());
                    return Err(FileSyncError::SyncFailed(msg));
                },
            },
            EFileSchema::Unknown => false,
        };
        if accept {
            self.dw_list.push_back(info);
        }
        Ok(self)
    }

    /// Replaces the download queue.
    pub fn set_download_list(&mut self, l: Vec<RemoteFileInfo>)
        ensures
            final(self).down_view() == l@,
            final(self).up_view() == old(self).up_view(),
            final(self).s3_setting() == old(self).s3_setting(),
            final(self).has_http_handler() == old(self).has_http_handler(),
            final(self).done_count() == old(self).done_count(),
    {
        self.dw_list = deque_of(l);
    }

    /// Replaces the upload queue.
    pub fn set_upload_list(&mut self, l: Vec<RemoteFileInfo>)
        ensures
            final(self).up_view() == l@,
            final(self).down_view() == old(self).down_view(),
            final(self).s3_setting() == old(self).s3_setting(),
            final(self).has_http_handler() == old(self).has_http_handler(),
            final(self).done_count() == old(self).done_count(),
    {
        self.up_list = deque_of(l);
    }

    /// Takes every queued file of one direction, in queue order, and leaves
    /// that queue empty.
    pub fn take_sync_list(&mut self, action: ExecAction) -> (res: Vec<RemoteFileInfo>)
        ensures
            action == ExecAction::Download ==> {
                &&& res@ == old(self).down_view()
                &&& final(self).down_view() == Seq::<RemoteFileInfo>::empty()
                &&& final(self).up_view() == old(self).up_view()
            },
            action == ExecAction::Up ==> {
                &&& res@ == old(self).up_view()
                &&& final(self).up_view() == Seq::<RemoteFileInfo>::empty()
                &&& final(self).down_view() == old(self).down_view()
            },
            final(self).s3_setting() == old(self).s3_setting(),
            final(self).has_http_handler() == old(self).has_http_handler(),
            final(self).done_count() == old(self).done_count(),
    {
        match action {
            ExecAction::Download => drain_deque(&mut self.dw_list),
            ExecAction::Up => drain_deque(&mut self.up_list),
        }
    }

    /// Counts one more finished transfer (the count stops at the largest
    /// `usize`).
    pub fn count_done(&mut self)
        ensures
            final(self).done_count() == if old(self).done_count() < usize::MAX {
                old(self).done_count() + 1
            } else {
                old(self).done_count()
            },
            final(self).up_view() == old(self).up_view(),
            final(self).down_view() == old(self).down_view(),
            final(self).s3_setting() == old(self).s3_setting(),
            final(self).has_http_handler() == old(self).has_http_handler(),
    {
        if self.cur_dw_process < usize::MAX {
            self.cur_dw_process = self.cur_dw_process + 1;
        }
    }
}

/// The bytes done after a chunk of `chunk_len` bytes, and the progress
/// message `[done, total]` that the display gets; `None` where either number
/// does not fit in a `u32`.
pub fn progress_report(done: u64, chunk_len: usize, total: u64) -> (res: Option<(u64, Vec<u32>)>)
    ensures
        res is Some <==> (done + chunk_len <= u32::MAX && total <= u32::MAX),
        res matches Some((d, m)) ==> d == done + chunk_len && m@ == seq![d as u32, total as u32],
{
    let len = chunk_len as u64;
    if done > 4294967295u64 || len > 4294967295u64 - done || total > 4294967295u64 {
        return None;
    }
    let d = done + len;
    let mut m: Vec<u32> = Vec::new();
    m.push(d as u32);
    m.push(total as u32);
    proof {
        assert(m@ =~= seq![d as u32, total as u32]);
    }
    Some((d, m))
}

/// A run over the files taken from one queue: which file is next, and the
/// outcome of each file done so far, in queue order.
pub struct SyncRun {
    action: ExecAction,
    items: Vec<RemoteFileInfo>,
    outcomes: Vec<Result<String, FileSyncError>>,
}

impl SyncRun {
    /// The files of the run, in queue order.
    pub closed spec fn items_view(&self) -> Seq<RemoteFileInfo> {
        self.items@
    }

    /// The outcomes of the files done so far, in queue order.
    pub closed spec fn outcomes_view(&self) -> Seq<Result<String, FileSyncError>> {
        self.outcomes@
    }

    /// The direction of the run.
    pub closed spec fn action_view(&self) -> ExecAction {
        self.action
    }

    /// No file has more than one outcome.
    pub closed spec fn wf(&self) -> bool {
        self.outcomes@.len() <= self.items@.len()
    }

    /// Takes every file queued in one direction for a run; the queue is left
    /// empty.
    pub fn start(syncer: &mut RFileSyncer, action: ExecAction) -> (run: SyncRun)
        ensures
            run.wf(),
            run.action_view() == action,
            run.outcomes_view() == Seq::<Result<String, FileSyncError>>::empty(),
            action == ExecAction::Download ==> {
                &&& run.items_view() == old(syncer).down_view()
                &&& final(syncer).down_view() == Seq::<RemoteFileInfo>::empty()
                &&& final(syncer).up_view() == old(syncer).up_view()
            },
            action == ExecAction::Up ==> {
                &&& run.items_view() == old(syncer).up_view()
                &&& final(syncer).up_view() == Seq::<RemoteFileInfo>::empty()
                &&& final(syncer).down_view() == old(syncer).down_view()
            },
            final(syncer).s3_setting() == old(syncer).s3_setting(),
            final(syncer).has_http_handler() == old(syncer).has_http_handler(),
            final(syncer).done_count() == old(syncer).done_count(),
    {
        let items = syncer.take_sync_list(action);
        SyncRun { action, items, outcomes: Vec::new() }
    }

    /// The direction of the run.
    pub fn action(&self) -> (res: ExecAction)
        ensures
            res == self.action_view(),
    {
        self.action
    }

    /// The next file: the first one without an outcome; none once every
    /// file has one.
    pub fn current(&self) -> (res: Option<&RemoteFileInfo>)
        requires
            self.wf(),
        ensures
            res is None <==> self.outcomes_view().len() == self.items_view().len(),
            res matches Some(i) ==> *i == self.items_view()[self.outcomes_view().len() as int],
    {
        let k = self.outcomes.len();
        if k < self.items.len() {
            Some(&self.items[k])
        } else {
            None
        }
    }

    /// How many files have an outcome.
    pub fn index(&self) -> (res: usize)
        ensures
            res == self.outcomes_view().len(),
    {
        self.outcomes.len()
    }

    /// How many files the run has.
    pub fn total(&self) -> (res: usize)
        ensures
            res == self.items_view().len(),
    {
        self.items.len()
    }

    /// Records the outcome of the current file, whatever it is, and moves
    /// on to the next.
    pub fn record(&mut self, outcome: Result<String, FileSyncError>)
        requires
            old(self).wf(),
            old(self).outcomes_view().len() < old(self).items_view().len(),
        ensures
            final(self).wf(),
            final(self).items_view() == old(self).items_view(),
            final(self).action_view() == old(self).action_view(),
            final(self).outcomes_view() == old(self).outcomes_view().push(outcome),
    {
        self.outcomes.push(outcome);
    }

    /// The outcomes, one for each file done, in queue order.
    pub fn finish(self) -> (res: Vec<Result<String, FileSyncError>>)
        ensures
            res@ == self.outcomes_view(),
    {
        self.outcomes
    }
}

/// A deque holding the items of a vector, in order.
fn deque_of(l: Vec<RemoteFileInfo>) -> (res: VecDeque<RemoteFileInfo>)
    ensures
        res@ == l@,
{
    let mut d: VecDeque<RemoteFileInfo> = VecDeque::new();
    let ghost items = l@;
    let mut rest = reverse_vec(l);
    proof {
        assert(rest@.reverse() =~= items);
    }
    while rest.len() > 0
        invariant
            d@ + rest@.reverse() == items,
        decreases rest@.len(),
    {
        let ghost pre = rest@;
        let x = rest.pop().unwrap();
        d.push_back(x);
        proof {
            assert(pre == rest@.push(x));
            assert(pre.reverse() =~= seq![x] + rest@.reverse());
            assert(d@ + rest@.reverse() =~= items);
        }
    }
    proof {
        assert(rest@.reverse() =~= Seq::<RemoteFileInfo>::empty());
        assert(d@ =~= items);
    }
    d
}

/// The items of a vector in reverse order.
fn reverse_vec(l: Vec<RemoteFileInfo>) -> (res: Vec<RemoteFileInfo>)
    ensures
        res@ == l@.reverse(),
{
    let mut rest = l;
    let ghost items = rest@;
    let mut out: Vec<RemoteFileInfo> = Vec::new();
    while rest.len() > 0
        invariant
            out@ + rest@.reverse() == items.reverse(),
            rest@ == items.take(rest@.len() as int),
            rest@.len() <= items.len(),
        decreases rest@.len(),
    {
        let ghost pre = rest@;
        let x = rest.pop().unwrap();
        out.push(x);
        proof {
            assert(pre == rest@.push(x));
            assert(pre.reverse() =~= seq![x] + rest@.reverse());
            assert(out@ + rest@.reverse() =~= items.reverse());
            assert(rest@ =~= items.take(rest@.len() as int));
        }
    }
    proof {
        assert(out@ =~= items.reverse());
    }
    out
}

/// Takes every item of a deque, front first, leaving it empty.
fn drain_deque(d: &mut VecDeque<RemoteFileInfo>) -> (res: Vec<RemoteFileInfo>)
    ensures
        res@ == old(d)@,
        final(d)@ == Seq::<RemoteFileInfo>::empty(),
{
    let mut out: Vec<RemoteFileInfo> = Vec::new();
    let ghost items = d@;
    while d.len() > 0
        invariant
            out@ + d@ == items,
        decreases d@.len(),
    {
        let x = d.pop_front().unwrap();
        out.push(x);
        proof {
            assert(out@ + d@ =~= items);
        }
    }
    proof {
        assert(out@ =~= items);
    }
    out
}

impl Default for RFileSyncer {
    fn default() -> (res: Self)
        ensures
            res.up_view() == Seq::<RemoteFileInfo>::empty(),
            res.down_view() == Seq::<RemoteFileInfo>::empty(),
            res.s3_setting() is None,
            !res.has_http_handler(),
            res.done_count() == 0,
    {
        Self {
            up_list: VecDeque::new(),
            dw_list: VecDeque::new(),
            cur_dw_process: 0,
            multi_setting: MultiSetting::default(),
            s3_handler: None,
            http_handler: None,
        }
    }
}

} // verus!
