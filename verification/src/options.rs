//! The command-line options, as plain values.
use vstd::prelude::*;

use crate::output::Type;

verus! {

/// What the user asked for on the command line.
pub struct Opts {
    /// The profile (section of the profile file) to use.
    pub profile: String,
    /// The HTTP method.
    pub request: String,
    /// Extra headers, each written `NAME:VALUE`.
    pub header: Vec<String>,
    pub verbose: bool,
    /// Template for a custom authorization header, `NAME=VALUE` with a
    /// `$token` placeholder; empty for a bearer token.
    pub auth_header_template: String,
    /// Whether to send the request or print it as a curl command.
    pub output: Type,
    pub url: String,
    /// A raw request body.
    pub data: Option<String>,
    /// Request timeout in seconds.
    pub timeout: u64,
}

} // verus!
