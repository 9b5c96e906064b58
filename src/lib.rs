//! Request shaping for a command-line client of the Jira Cloud REST API, version 3: issue
//! field payloads with descriptions in Atlassian Document Format, transition lookup by
//! name, directional issue links, and the reading of replies.

pub mod auth;
pub mod error;
pub mod fields;
pub mod json;
pub mod link;
pub mod request;
pub mod response;
pub mod settings;
pub mod text;
pub mod transition;
