//! The data model of the transit service: identifiers, requests and records.

pub mod helper_types;
pub mod request;
pub mod response;
