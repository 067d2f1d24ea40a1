//! Client-side building blocks for the package and file services: request
//! construction for the service APIs, response checks, remote file sync
//! planning, settings, and a small queue.
pub mod queue;
pub mod text;
pub mod net;
pub mod resp;
pub mod artifactory;
pub mod dpm;
pub mod gate;
pub mod picboo;
pub mod release;
pub mod settings;
pub mod remote;
pub mod nexus_api;
pub mod lz4;
pub mod timefmt;
pub mod shell;
