//! Configuration values, as plain data. The surrounding program gathers
//! them (command line or environment) and hands them over before the core
//! starts serving.
use vstd::prelude::*;

verus! {

/// Server configuration: listen addresses (as text, for the transport
/// layer), the base domain to serve, and the static `name:ip` entries.
#[derive(Debug, Clone)]
pub struct Options {
    pub udp: Vec<String>,
    pub tcp: Vec<String>,
    pub domain: String,
    pub entries: Vec<String>,
}

/// Client-mode configuration: the `name:ip` entry list.
#[derive(Debug, Clone)]
pub struct ClientOptions {
    pub entries: Vec<String>,
}

} // verus!
