//! The Nexus repository service.
use vstd::prelude::*;
use crate::resp::{new_http_client, ApiReqError};
use crate::settings::NexusRegionSetting;

verus! {

/// The client of a Nexus repository.
pub struct NexusApi(NexusRegionSetting);

impl NexusApi {
    /// The repository setting of the client.
    pub closed spec fn setting(&self) -> NexusRegionSetting {
        self.0
    }

    pub fn new(nexus: NexusRegionSetting) -> (res: Self)
        ensures
            res.setting() == nexus,
    {
        Self(nexus)
    }

    /// A client for the requests; the reqwest error where none can be built.
    pub fn client_builder(&self) -> (res: Result<reqwest::Client, ApiReqError>)
        ensures
            res matches Err(e) ==> e is ReqError,
    {
        new_http_client()
    }

    /// The host of the Nexus API: the endpoint of the setting.
    pub fn download_component(&self) -> (res: &str)
        ensures
            res@ == self.setting().endpoint@,
    {
        self.0.endpoint.as_str()
    }
}

} // verus!
