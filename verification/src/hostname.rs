//! The OS hostname, looked up once per message batch.

use vstd::prelude::*;

verus! {

/// Relies on `whoami::hostname`: returns the hostname of the current
/// machine. The result depends on the environment, so nothing is
/// promised of its value; a lookup failure comes back as `None`.
#[verifier::external_body]
fn os_hostname() -> (r: Option<String>) {
    match whoami::hostname() {
        Ok(h) => Some(h),
        Err(_) => None,
    }
}

/// The OS hostname, or `localhost` where the platform gives none.
pub fn hostname() -> (r: String) {
    match os_hostname() {
        Some(h) => h,
        None => "localhost".to_owned(),
    }
}

} // verus!
