//! The trigger endpoint's authorization decision.
//!
//! The endpoint compares the request's `Authorization` header against
//! the pre-shared key and answers in the response body alone — a
//! missing header, a wrong key and an accepted trigger each have their
//! fixed body text, all at a success transport status. Only an
//! accepted trigger starts a sync run, and the caller is answered
//! before the run finishes. Reading the header and spawning the run
//! are I/O and stay outside the library.

use vstd::prelude::*;

verus! {

/// The endpoint's answer to one trigger request.
#[derive(Clone, Copy, Debug, PartialEq, Eq, Structural)]
pub enum TriggerResponse {
    /// No `Authorization` header was sent.
    NoApiKey,
    /// The header does not match the pre-shared key.
    WrongApiKey,
    /// The key matches; a sync run is to be started.
    UpdateStarted,
}

impl TriggerResponse {
    /// Whether this answer starts a sync run.
    pub open spec fn spec_starts_run(self) -> bool {
        self is UpdateStarted
    }

    /// Whether this answer starts a sync run: only an accepted key
    /// does.
    pub fn starts_run(&self) -> (r: bool)
        ensures
            r == self.spec_starts_run(),
    {
        match self {
            TriggerResponse::UpdateStarted => true,
            _ => false,
        }
    }

    /// The fixed response body for this answer.
    pub fn body(&self) -> (r: &'static str)
        ensures
            self is NoApiKey ==> r@ == "No api-key!"@,
            self is WrongApiKey ==> r@ == "Wrong api-key!"@,
            self is UpdateStarted ==> r@ == "Update started"@,
    {
        match self {
            TriggerResponse::NoApiKey => "No api-key!",
            TriggerResponse::WrongApiKey => "Wrong api-key!",
            TriggerResponse::UpdateStarted => "Update started",
        }
    }
}

/// Decides one trigger request: no header at all is answered apart
/// from a mismatched key, and only an exact match starts a run.
pub fn authorize(header: Option<&String>, api_key: &String) -> (r: TriggerResponse)
    ensures
        header is None ==> r is NoApiKey,
        (header is Some && header->0@ != api_key@) ==> r is WrongApiKey,
        (header is Some && header->0@ == api_key@) ==> r is UpdateStarted,
{
    match header {
        None => TriggerResponse::NoApiKey,
        Some(h) => {
            if *h == *api_key {
                TriggerResponse::UpdateStarted
            } else {
                TriggerResponse::WrongApiKey
            }
        },
    }
}

} // verus!
