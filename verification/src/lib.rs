//! Real-time notification fabric for a task-management backend: a registry of
//! live client connections, bounded per-connection event channels, a session
//! state machine, an upgrade gate that authenticates tokens, and a notifier
//! that fans event payloads out to every registered connection.

use vstd::prelude::*;

pub mod api;
pub mod auth;
pub mod gate;
pub mod channel;
pub mod registry;
pub mod session;
pub mod payload;

verus! {

/// Capacity of each connection's event channel: at most this many payloads
/// may be buffered before further broadcasts are dropped for that subscriber.
pub const CHANNEL_CAPACITY: usize = 100;

/// Upper bound on the size of a single inbound frame, in bytes.
pub const MAX_FRAME_SIZE: usize = 1024;

/// The fixed security headers set on every HTTP response.
pub struct SecurityHeaders;

impl SecurityHeaders {
    /// The header names and values, in the order they are set.
    pub fn headers() -> (r: Vec<(&'static str, &'static str)>)
        ensures
            r@.len() == 8,
            r@[0].0@ == "X-Content-Type-Options"@ && r@[0].1@ == "nosniff"@,
            r@[1].0@ == "X-Frame-Options"@ && r@[1].1@ == "DENY"@,
            r@[2].0@ == "X-XSS-Protection"@ && r@[2].1@ == "1; mode=block"@,
            r@[3].0@ == "Content-Security-Policy"@ && r@[3].1@ == "default-src 'self'"@,
            r@[4].0@ == "Referrer-Policy"@ && r@[4].1@ == "no-referrer"@,
            r@[5].0@ == "Strict-Transport-Security"@ && r@[5].1@
                == "max-age=31536000; includeSubDomains"@,
            r@[6].0@ == "Permissions-Policy"@ && r@[6].1@ == "geolocation=()"@,
            r@[7].0@ == "Cross-Origin-Embedder-Policy"@ && r@[7].1@ == "require-corp"@,
    {
        let mut r: Vec<(&'static str, &'static str)> = Vec::new();
        r.push(("X-Content-Type-Options", "nosniff"));
        r.push(("X-Frame-Options", "DENY"));
        r.push(("X-XSS-Protection", "1; mode=block"));
        r.push(("Content-Security-Policy", "default-src 'self'"));
        r.push(("Referrer-Policy", "no-referrer"));
        r.push(("Strict-Transport-Security", "max-age=31536000; includeSubDomains"));
        r.push(("Permissions-Policy", "geolocation=()"));
        r.push(("Cross-Origin-Embedder-Policy", "require-corp"));
        r
    }
}

} // verus!
