//! Internet radio as a set of callable tools: the decisions behind station
//! search and playback.
use vstd::prelude::*;

pub mod arguments;
pub mod call;
pub mod error;
pub mod json;
pub mod models;
pub mod operations;
pub mod playback;
pub mod ranking;
pub mod schema;
pub mod service;
pub mod text;
pub mod tools;

pub use service::{server_config, RadioService};

verus! {

/// Construct the internet-radio service for in-process hosting.
/// `configured_base` is the directory address that the environment sets, if it
/// sets one.
pub fn build_service(configured_base: Option<String>) -> (service: RadioService)
    ensures
        service.base() == match configured_base {
            Some(base) => base@,
            None => operations::radio::RADIO_BROWSER_BASE@,
        },
{
    RadioService::new(configured_base)
}

} // verus!
