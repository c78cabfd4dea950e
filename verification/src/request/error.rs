//! Why a request could not be made.
use vstd::prelude::*;

use crate::oauth2::AccessTokenError;

verus! {

/// Why a request could not be made.
#[derive(Debug)]
pub enum RequestError {
    /// No access token could be had.
    OAuth(AccessTokenError),
    /// Sending the request failed.
    Http(reqwest::Error),
    /// A header name or value is not valid (the error's description).
    InvalidHeader(String),
}

} // verus!
