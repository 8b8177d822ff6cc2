//! Placeholder peer-connection manager: the signalling endpoints answer,
//! but no peers are negotiated yet.

use vstd::prelude::*;

verus! {

/// Holds no state yet; peers are not actually negotiated.
#[derive(Debug)]
pub struct WebRtcManager;

impl WebRtcManager {
    /// A fresh manager.
    pub fn new() -> (r: WebRtcManager)
        ensures
            r == WebRtcManager,
    {
        WebRtcManager
    }
}

impl Default for WebRtcManager {
    /// Same as `new`.
    fn default() -> (r: Self)
        ensures
            r == WebRtcManager,
    {
        WebRtcManager::new()
    }
}

/// Answer to an SDP answer submission.
#[derive(Debug, PartialEq)]
pub struct AnswerResponse {
    /// Whether the answer was accepted.
    pub success: bool,
}

} // verus!
