//! The program's name and version, sent as the default `User-Agent`.
use vstd::prelude::*;

use crate::text::owned;

verus! {

/// The default user agent: the package name and version.
pub open spec fn agent_name() -> Seq<char> {
    "aurl-rust 0.1.3"@
}

/// The package name and version, e.g. for the `User-Agent` header.
pub fn name() -> (s: String)
    ensures
        s@ == agent_name(),
{
    owned("aurl-rust 0.1.3")
}

} // verus!
