//! Backend logic of a voice-driven assistant: the event model that viewers
//! receive, the tool dispatcher, and the step-by-step orchestration of one
//! assistant invocation, driven by an outer runtime that performs the
//! requested service calls and artifact writes.

pub mod assets;
pub mod events;
pub mod pipeline;
pub mod registry;
pub mod render;
pub mod services;
pub mod tools;

pub use assets::{audio_path, audio_url, image_path, image_url};

use vstd::prelude::*;

verus! {

/// Command-line settings of the server.
#[derive(Clone, Debug)]
pub struct Args {
    /// Port to listen on.
    pub port: u16,
    /// Directory holding `cert.pem` and `key.pem`.
    pub cert_path: String,
}

impl Args {
    /// The settings used when none are given: port 8080, certificates
    /// under `./.certs`.
    pub fn defaults() -> (r: Args)
        ensures
            r.port == 8080,
            r.cert_path@ == "./.certs"@,
    {
        Args { port: 8080, cert_path: String::from_str("./.certs") }
    }
}

/// The identity of the device a request comes from.
#[derive(Clone, Debug)]
pub struct AppContext {
    pub device_id: String,
}

} // verus!
