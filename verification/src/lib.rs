//! Verified core of an OAuth2-aware HTTP client: configuration parsing,
//! token-request construction, request header assembly, curl snippets and
//! the decision logic of request dispatch.
pub mod text;
pub mod authserver;
pub mod oauth2;
pub mod profile;
pub mod options;
pub mod output;
pub mod version;
pub mod request;
pub mod cli;
pub mod logging;
