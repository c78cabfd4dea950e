//! Building and dispatching the authorized request.
pub mod error;
pub mod headers;
pub mod plan;
pub mod modifier;
pub mod custom_headers;
pub mod auth_header;
pub mod body;
pub mod timeout;
pub mod dispatcher;
pub mod cors;
