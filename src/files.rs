//! Helpers on locations handed to the installer.

use vstd::prelude::*;
use crate::text::has_prefix;

verus! {

/// Whether `s` names a web location: it begins with `http://` or `https://`.
pub open spec fn is_url_spec(s: Seq<char>) -> bool {
    "http://"@.is_prefix_of(s) || "https://"@.is_prefix_of(s)
}

/// Checks if the URL is valid.
pub fn is_url(url: String) -> (r: bool)
    ensures
        r == is_url_spec(url@),
{
    has_prefix(url.as_str(), "http://") || has_prefix(url.as_str(), "https://")
}

} // verus!
