use std::sync::Arc;

use vstd::prelude::*;

verus! {

/// The client-side certificate policy of the secure transport: every server
/// certificate is accepted, since peer identity comes from discovery and not
/// from certificates.
pub struct SkipServerVerification;

impl SkipServerVerification {
    pub fn new() -> (r: Arc<SkipServerVerification>) {
        Arc::new(SkipServerVerification)
    }

    /// Whether a presented server certificate is accepted.
    pub fn verify_server_cert(&self) -> (r: bool)
        ensures
            r,
    {
        true
    }
}

} // verus!
