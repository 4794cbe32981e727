//! Asset upload decisions: the upload call answers with an immediate asset id
//! or a pollable operation handle; polling proceeds at a fixed interval up to
//! a fixed attempt ceiling. The session-authenticated configuration endpoint
//! additionally needs a token handshake, retried exactly once.

use crate::errors::SyncError;
use crate::text::{dec_str, parse_dec, u64_to_dec_string};
use vstd::prelude::*;

verus! {

/// How many times a pending operation is polled before giving up.
pub const MAX_POLL_ATTEMPTS: u64 = 30;

/// Seconds between two poll attempts.
pub const POLL_INTERVAL_SECS: u64 = 2;

/// A long-running-operation response, reduced to the fields the engine reads.
#[derive(Debug, Clone)]
pub struct OperationStatus {
    /// The operation's resource path, present on the initial response.
    pub path: Option<String>,
    pub done: Option<bool>,
    /// The created asset's id, present once the operation completed.
    pub asset_id: Option<String>,
    /// The error object, if the operation failed.
    pub error: Option<OperationErrorInfo>,
}

/// The error object inside a failed operation response.
#[derive(Debug, Clone)]
pub struct OperationErrorInfo {
    pub message: Option<String>,
}

/// What the initial upload response yields.
#[derive(Debug, Clone)]
pub enum UploadHandle {
    /// The operation already finished: the asset id is at hand.
    Ready { asset_id: String },
    /// The operation is pending: poll this path until it completes.
    Pending { path: String },
}

/// Reads the initial upload response: a completed operation yields its asset
/// id at once; otherwise the operation path must be present for polling.
pub fn upload_outcome(status: &OperationStatus) -> (r: Result<UploadHandle, SyncError>)
    ensures
        if status.done == Some(true) && status.asset_id is Some {
            r matches Ok(UploadHandle::Ready { asset_id }) && status.asset_id matches Some(a)
                && asset_id@ == a@
        } else if status.path is Some {
            r matches Ok(UploadHandle::Pending { path }) && status.path matches Some(p) && path@
                == p@
        } else {
            r matches Err(e) && e is OperationMissingPath
        },
{
    let done = match status.done {
        Some(d) => d,
        None => false,
    };
    if done {
        match &status.asset_id {
            Some(a) => {
                return Ok(UploadHandle::Ready { asset_id: a.clone() });
            },
            None => {},
        }
    }
    match &status.path {
        Some(p) => Ok(UploadHandle::Pending { path: p.clone() }),
        None => Err(SyncError::OperationMissingPath),
    }
}

/// What one poll of a pending operation decides.
#[derive(Debug, Clone)]
pub enum PollStep {
    /// The operation completed: the asset id is at hand.
    Complete { asset_id: String },
    /// The operation failed, or completed without an asset id.
    Failed { error: SyncError },
    /// Still pending: wait the interval and poll again.
    Continue,
}

/// Reads one poll response: a reported error fails with the remote message
/// (or a placeholder), a completed operation yields its asset id or fails
/// for the lack of one, anything else keeps polling.
pub fn poll_step(status: &OperationStatus) -> (r: PollStep)
    ensures
        match status.error {
            Some(info) => {
                &&& r matches PollStep::Failed { error }
                &&& error matches SyncError::AssetOperationFailed { message }
                &&& message@ == (match info.message {
                    Some(m) => m@,
                    None => "Unknown error"@,
                })
            },
            None => {
                if status.done == Some(true) {
                    match status.asset_id {
                        Some(a) => r matches PollStep::Complete { asset_id } && asset_id@ == a@,
                        None => r matches PollStep::Failed { error } && error
                            is OperationDoneWithoutId,
                    }
                } else {
                    r is Continue
                }
            },
        },
{
    match &status.error {
        Some(info) => {
            let message = match &info.message {
                Some(m) => m.clone(),
                None => "Unknown error".to_owned(),
            };
            PollStep::Failed { error: SyncError::AssetOperationFailed { message } }
        },
        None => {
            let done = match status.done {
                Some(d) => d,
                None => false,
            };
            if done {
                match &status.asset_id {
                    Some(a) => PollStep::Complete { asset_id: a.clone() },
                    None => PollStep::Failed { error: SyncError::OperationDoneWithoutId },
                }
            } else {
                PollStep::Continue
            }
        },
    }
}

/// Parses an uploaded asset's id, which the wire carries as decimal text.
pub fn parse_asset_id(s: &String) -> (r: Result<u64, SyncError>)
    ensures
        match parse_dec(s@) {
            Some(v) => r == Result::<u64, SyncError>::Ok(v),
            None => r matches Err(SyncError::InvalidAssetId { value }) && value@ == s@,
        },
{
    match crate::text::parse_u64(s.as_str()) {
        Some(v) => Ok(v),
        None => Err(SyncError::InvalidAssetId { value: s.clone() }),
    }
}

/// The mime type an icon file's extension implies; unknown extensions fall
/// back to PNG.
pub fn mime_for_extension(ext: &String) -> (r: String)
    ensures
        if ext@ == "jpg"@ || ext@ == "jpeg"@ {
            r@ == "image/jpeg"@
        } else if ext@ == "bmp"@ {
            r@ == "image/bmp"@
        } else if ext@ == "tga"@ {
            r@ == "image/tga"@
        } else {
            r@ == "image/png"@
        },
{
    if crate::text::string_eq(ext, &"jpg".to_owned()) || crate::text::string_eq(
        ext,
        &"jpeg".to_owned(),
    ) {
        "image/jpeg".to_owned()
    } else if crate::text::string_eq(ext, &"bmp".to_owned()) {
        "image/bmp".to_owned()
    } else if crate::text::string_eq(ext, &"tga".to_owned()) {
        "image/tga".to_owned()
    } else {
        "image/png".to_owned()
    }
}

/// What a session-authenticated write does next after one response.
#[derive(Debug, Clone)]
pub enum CsrfDecision {
    /// The write was rejected for a missing token and the response supplied
    /// one: retry exactly once with it attached.
    RetryWithToken { token: String },
    /// Accept this response as the outcome, success or not.
    Done,
}

/// The token handshake, as request-scoped state: a forbidden first answer
/// that carries a token is retried once with it; any other answer, and any
/// answer after the one retry, is final.
pub fn csrf_decision(status: u16, token_header: &Option<String>, already_retried: bool) -> (r:
    CsrfDecision)
    ensures
        if status == 403 && token_header is Some && !already_retried {
            r matches CsrfDecision::RetryWithToken { token } && token_header matches Some(t)
                && token@ == t@
        } else {
            r is Done
        },
{
    if status == 403 && !already_retried {
        match token_header {
            Some(t) => CsrfDecision::RetryWithToken { token: t.clone() },
            None => CsrfDecision::Done,
        }
    } else {
        CsrfDecision::Done
    }
}

/// The message a non-success gateway response becomes.
pub fn remote_failure_message(status: u16, text: &String) -> (r: String)
    ensures
        r@ == "API request failed: "@ + dec_str(status as nat) + " - "@ + text@,
{
    let mut s = "API request failed: ".to_owned();
    let code = u64_to_dec_string(status as u64);
    s.append(code.as_str());
    s.append(" - ");
    s.append(text.as_str());
    proof {
        assert(s@ =~= "API request failed: "@ + dec_str(status as nat) + " - "@ + text@);
    }
    s
}

} // verus!
