//! Choosing the profile to run with, and what can go wrong on the way.
use vstd::prelude::*;

use crate::oauth2::OAuth2Config;
use crate::profile::{find_profile, profile_index, InvalidConfig, Profile};
use crate::request::error::RequestError;

verus! {

/// Why the program failed.
#[derive(Debug)]
pub enum AppError {
    /// No section of the profile file has the profile's name.
    ProfileNotFound(String),
    /// The profile file could not be read.
    InvalidConfig(InvalidConfig),
    /// The request failed.
    RequestError(RequestError),
}

/// The settings of the chosen profile: the last section with its name.
pub fn select_profile<'a>(profiles: &'a Vec<(String, OAuth2Config)>, profile: &Profile) -> (r: Result<
    &'a OAuth2Config,
    AppError,
>)
    ensures
        match r {
            Ok(c) => exists|i: int| profile_index(profiles@, profile.name@, i) && *c == profiles@[i].1,
            Err(e) => (forall|i: int| 0 <= i < profiles.len() ==> (#[trigger] profiles@[i]).0@
                != profile.name@) && (e matches AppError::ProfileNotFound(n) && n@ == profile.name@),
        },
{
    match find_profile(profiles, profile.name.as_str()) {
        Some(c) => Ok(c),
        None => Err(AppError::ProfileNotFound(profile.name.clone())),
    }
}

} // verus!
