//! Verified core of a desktop companion for a film-development device: it
//! turns a recipe document into the payload the device accepts, decides the
//! order of upload attempts, and reads the output of the host's Wi-Fi tooling.

pub mod http;
pub mod json;
pub mod recipe;
pub mod text;
pub mod trace;
pub mod upload;
pub mod wifi;
