//! Mirror a device's media inventory to local storage.
//!
//! The device exposes a small HTTP API: a properties endpoint used as an
//! availability probe, a listing endpoint that returns the directories and
//! file names it holds, and a per-file download endpoint. This crate holds
//! the verified core of the mirroring tool: the data model of the listing,
//! the URL and path construction, the probe decision, and the mirror engine,
//! a step machine that decides — for every directory and file of the
//! listing — which directory to create, which file to skip, which to fetch,
//! and when to abort. The surrounding binary performs the HTTP requests and
//! filesystem writes that the machine asks for and feeds the results back in.

pub mod config;
pub mod inventory;
pub mod mirror;
pub mod probe;
pub mod urls;
