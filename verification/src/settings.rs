//! Settings of the storage regions and of the sync runs.
use vstd::prelude::*;
use vstd::string::*;
use crate::text::string_of;

verus! {

/// The text of an optional string, empty where there is none.
pub open spec fn text_or_empty(s: Option<String>) -> Seq<char> {
    match s {
        Some(t) => t@,
        None => Seq::empty(),
    }
}

/// The text of an optional string, `default` where there is none.
pub open spec fn text_or(s: Option<String>, default: Seq<char>) -> Seq<char> {
    match s {
        Some(t) => t@,
        None => default,
    }
}

/// The given string, or a new one holding `default`.
pub(crate) fn string_or(s: Option<String>, default: &str) -> (res: String)
    ensures
        res@ == text_or(s, default@),
{
    match s {
        Some(t) => t,
        None => string_of(default),
    }
}

/// An equal copy of an optional string.
pub(crate) fn copy_opt_string(s: &Option<String>) -> (res: Option<String>)
    ensures
        res == *s,
{
    match s {
        Some(t) => Some(t.clone()),
        None => None,
    }
}

/// A Nexus repository and the account that uses it.
#[derive(Debug)]
pub struct NexusRegionSetting {
    pub endpoint: String,
    pub repository: String,
    pub user_name: String,
    pub password: String,
}

/// The text that describes a Nexus setting.
pub open spec fn nexus_text(s: NexusRegionSetting) -> Seq<char> {
    "[nexus] \\\nendpoint = "@ + s.endpoint@ + " \\\nrepository = "@ + s.repository@
        + " \\\nuser_name = "@ + s.user_name@ + " \\\npassword = "@ + s.password@
}

impl NexusRegionSetting {
    /// The setting from the values of `NEXUS_ENDPOINT`, `NEXUS_REPO`,
    /// `NEXUS_USERNAME` and `NEXUS_PASSWORD`; an unset value is empty.
    pub fn from_env_values(
        endpoint: Option<String>,
        repository: Option<String>,
        user_name: Option<String>,
        password: Option<String>,
    ) -> (res: Self)
        ensures
            res.endpoint@ == text_or_empty(endpoint),
            res.repository@ == text_or_empty(repository),
            res.user_name@ == text_or_empty(user_name),
            res.password@ == text_or_empty(password),
    {
        proof {
            reveal_strlit("");
        }
        Self {
            endpoint: string_or(endpoint, ""),
            repository: string_or(repository, ""),
            user_name: string_or(user_name, ""),
            password: string_or(password, ""),
        }
    }

    /// The text that the setting displays as.
    pub fn describe(&self) -> (res: String)
        ensures
            res@ == nexus_text(*self),
    {
        let mut s = String::from_str("[nexus] \\\nendpoint = ");
        s.append(self.endpoint.as_str());
        s.append(" \\\nrepository = ");
        s.append(self.repository.as_str());
        s.append(" \\\nuser_name = ");
        s.append(self.user_name.as_str());
        s.append(" \\\npassword = ");
        s.append(self.password.as_str());
        s
    }

    /// An equal copy.
    pub fn duplicate(&self) -> (res: Self)
        ensures
            res == *self,
    {
        Self {
            endpoint: self.endpoint.clone(),
            repository: self.repository.clone(),
            user_name: self.user_name.clone(),
            password: self.password.clone(),
        }
    }
}

/// An S3 bucket and the credentials that reach it.
#[derive(Debug)]
pub struct S3RegionSetting {
    pub access_key: String,
    pub access_sec: String,
    pub end_point: String,
    pub bucket: String,
    pub region: Option<String>,
    pub path: Option<String>,
}

/// The text that describes an S3 setting.
pub open spec fn s3_text(s: S3RegionSetting) -> Seq<char> {
    "[s3] \\\nend_point = "@ + s.end_point@ + " \\\nbucket = "@ + s.bucket@ + " \\\npath = "@
        + text_or_empty(s.path)
}

impl S3RegionSetting {
    /// A setting with no region and no path.
    pub fn new(access_key: String, access_sec: String, end_point: String, bucket: String) -> (res:
        Self)
        ensures
            res.access_key == access_key,
            res.access_sec == access_sec,
            res.end_point == end_point,
            res.bucket == bucket,
            res.region is None,
            res.path is None,
    {
        Self { access_key, access_sec, end_point, bucket, region: None, path: None }
    }

    /// The setting from the values of `S3_ACCESS_KEY`, `S3_SECRET_KEY`,
    /// `S3_ENDPOINT`, `S3_BUCKET`, `S3_REGION` and `S3_PATH`; an unset value
    /// becomes a placeholder naming it (the region's names `S3_BUCKET`), and
    /// an unset path is empty.
    pub fn from_env_values(
        access_key: Option<String>,
        secret_key: Option<String>,
        end_point: Option<String>,
        bucket: Option<String>,
        region: Option<String>,
        path: Option<String>,
    ) -> (res: Self)
        ensures
            res.access_key@ == text_or(access_key, "UNKNOWN S3_ACCESS_KEY"@),
            res.access_sec@ == text_or(secret_key, "UNKNOWN S3_SECRET_KEY"@),
            res.end_point@ == text_or(end_point, "UNKNOWN S3_ENDPOINT"@),
            res.bucket@ == text_or(bucket, "UNKNOWN S3_BUCKET"@),
            res.region matches Some(r) && r@ == text_or(region, "UNKNOWN S3_BUCKET"@),
            res.path matches Some(p) && p@ == text_or_empty(path),
    {
        proof {
            reveal_strlit("");
        }
        Self {
            access_key: string_or(access_key, "UNKNOWN S3_ACCESS_KEY"),
            access_sec: string_or(secret_key, "UNKNOWN S3_SECRET_KEY"),
            end_point: string_or(end_point, "UNKNOWN S3_ENDPOINT"),
            bucket: string_or(bucket, "UNKNOWN S3_BUCKET"),
            region: Some(string_or(region, "UNKNOWN S3_BUCKET")),
            path: Some(string_or(path, "")),
        }
    }

    pub fn set_path(&mut self, path: Option<String>)
        ensures
            final(self).path == path,
            final(self).access_key == old(self).access_key,
            final(self).access_sec == old(self).access_sec,
            final(self).end_point == old(self).end_point,
            final(self).bucket == old(self).bucket,
            final(self).region == old(self).region,
    {
        self.path = path;
    }

    /// The text that the setting displays as.
    pub fn describe(&self) -> (res: String)
        ensures
            res@ == s3_text(*self),
    {
        let mut s = String::from_str("[s3] \\\nend_point = ");
        s.append(self.end_point.as_str());
        s.append(" \\\nbucket = ");
        s.append(self.bucket.as_str());
        s.append(" \\\npath = ");
        match &self.path {
            Some(p) => s.append(p.as_str()),
            None => {},
        }
        s
    }

    /// An equal copy.
    pub fn duplicate(&self) -> (res: Self)
        ensures
            res == *self,
    {
        Self {
            access_key: self.access_key.clone(),
            access_sec: self.access_sec.clone(),
            end_point: self.end_point.clone(),
            bucket: self.bucket.clone(),
            region: copy_opt_string(&self.region),
            path: copy_opt_string(&self.path),
        }
    }
}

/// Settings that only HTTP transfers have (none so far).
#[derive(Debug)]
pub struct HttpRegionSetting {}

impl Default for HttpRegionSetting {
    fn default() -> (res: Self) {
        HttpRegionSetting {  }
    }
}

/// Transfer settings: how many at once, and a speed limit.
#[derive(Debug)]
pub struct MultiSetting {
    async_max: u8,
    speed_limit: Option<u32>,
}

impl MultiSetting {
    /// How many transfers may run at once.
    pub closed spec fn async_max_view(&self) -> u8 {
        self.async_max
    }

    /// The speed limit, if any.
    pub closed spec fn speed_limit_view(&self) -> Option<u32> {
        self.speed_limit
    }
}

impl Default for MultiSetting {
    fn default() -> (res: Self)
        ensures
            res.async_max_view() == 5,
            res.speed_limit_view() is None,
    {
        Self { async_max: 5, speed_limit: None }
    }
}

} // verus!
