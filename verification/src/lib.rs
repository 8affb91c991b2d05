//! A small authoritative DNS service core: classifies each incoming query
//! against a table of static entries and a pair of local zones, and builds
//! the response (local answer, reflected requester address, authoritative
//! negative answer, or a forwarded answer from an upstream resolver).

pub mod text;
pub mod name;
pub mod ip;
pub mod message;
pub mod resolver;
pub mod options;
pub mod handler;
pub mod laws;
