//! A relay between a publish/subscribe bus and a cloud speech API.
//!
//! The library holds the decisions of the relay: how an inbound request is
//! read, which upstream call it becomes, what is published back, and how the
//! bearer credential is kept fresh. Network and bus traffic are left to the
//! caller, who performs the actions the library returns.

pub mod auth;
pub mod credential;
pub mod failure;
pub mod json;
pub mod refresher;
pub mod relay;
pub mod tts_payload;
pub mod urls;
