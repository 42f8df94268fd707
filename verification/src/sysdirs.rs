//! The platform's per-user base directories, looked up through the `dirs` crate.
//!
//! These lookups read the environment, so nothing useful can be promised about
//! the returned paths; callers state what they build on top of whatever comes
//! back.
use vstd::prelude::*;

verus! {

/// Relies on dirs::home_dir: the user's home directory, if the platform
/// reports one. The result depends on the environment.
#[verifier::external_body]
pub fn home_dir_string() -> (r: Option<String>) {
    match dirs::home_dir() {
        Some(p) => Some(p.to_string_lossy().into_owned()),
        None => None,
    }
}

/// Relies on dirs::config_dir: the user's configuration directory, if the
/// platform reports one. The result depends on the environment.
#[verifier::external_body]
pub fn config_dir_string() -> (r: Option<String>) {
    match dirs::config_dir() {
        Some(p) => Some(p.to_string_lossy().into_owned()),
        None => None,
    }
}

/// Relies on dirs::cache_dir: the user's cache directory, if the platform
/// reports one. The result depends on the environment.
#[verifier::external_body]
pub fn cache_dir_string() -> (r: Option<String>) {
    match dirs::cache_dir() {
        Some(p) => Some(p.to_string_lossy().into_owned()),
        None => None,
    }
}

} // verus!
