//! Errors as clients of the tool server see them.

use crate::model::{EventKitError, StoreError};
use vstd::prelude::*;
use vstd::string::*;

verus! {

/// Who is to blame for an error: the server or the request.
#[derive(Clone, Copy, PartialEq, Eq, Structural, Debug)]
pub enum McpErrorKind {
    Internal,
    InvalidParams,
}

/// The error of a tool.
#[derive(PartialEq, Eq, Debug)]
pub struct McpError {
    pub kind: McpErrorKind,
    pub message: String,
}

pub const DENIED: &'static str = "Reminders/Calendar access denied. Open System Settings → Privacy & Security \
     and enable access for `eventkit`. If `eventkit` is not listed, run \
     `tccutil reset Reminders` (or Calendar) in a terminal and retry. \
     Call `auth_status` to see the current state.";

pub const RESTRICTED: &'static str = "Reminders/Calendar access is restricted by system policy (MDM or parental controls).";

pub const NOT_DETERMINED: &'static str = "Authorization is undetermined and the consent dialog did not fire. \
     The binary may be missing Info.plist usage strings — rebuild and retry. \
     Call `auth_status` to see the current state.";

/// What a client is told about an error of the store: a hint on how to mend a
/// missing authorization, and for anything else the error's own text.
pub open spec fn mcp_message(e: StoreError) -> Seq<char> {
    match e.error {
        EventKitError::AuthorizationDenied => DENIED@,
        EventKitError::AuthorizationRestricted => RESTRICTED@,
        EventKitError::AuthorizationNotDetermined => NOT_DETERMINED@,
        EventKitError::AuthorizationRequestFailed(detail) => "Authorization request failed: "@
            + detail@,
        _ => e.text@,
    }
}

/// `e` is an internal error that says `message`.
pub open spec fn internal(e: McpError, message: Seq<char>) -> bool {
    e.kind == McpErrorKind::Internal && e.message@ == message
}

/// `e` blames the request and says `message`.
pub open spec fn invalid(e: McpError, message: Seq<char>) -> bool {
    e.kind == McpErrorKind::InvalidParams && e.message@ == message
}

/// `e` tells a client about an error of the store.
pub open spec fn reports(e: McpError, cause: StoreError) -> bool {
    internal(e, mcp_message(cause))
}

/// Turns an error of the store into one for a client.
pub fn mcp_err(e: &StoreError) -> (err: McpError)
    ensures
        reports(err, *e),
{
    let message: String = match &e.error {
        EventKitError::AuthorizationDenied => DENIED.to_owned(),
        EventKitError::AuthorizationRestricted => RESTRICTED.to_owned(),
        EventKitError::AuthorizationNotDetermined => NOT_DETERMINED.to_owned(),
        EventKitError::AuthorizationRequestFailed(detail) => {
            let mut m: String = "Authorization request failed: ".to_owned();
            m.append(detail.as_str());
            m
        },
        _ => e.text.clone(),
    };
    McpError { kind: McpErrorKind::Internal, message }
}

/// An error that blames the request.
pub fn mcp_invalid(message: String) -> (err: McpError)
    ensures
        err.kind == McpErrorKind::InvalidParams,
        err.message == message,
{
    McpError { kind: McpErrorKind::InvalidParams, message }
}

/// An error that blames the request, with a text before the reason.
pub fn mcp_invalid_because(lead: &str, reason: &str) -> (err: McpError)
    ensures
        invalid(err, lead@ + reason@),
{
    let mut m: String = lead.to_owned();
    m.append(reason);
    mcp_invalid(m)
}

/// An internal error, with a text before the reason.
pub fn mcp_internal_because(lead: &str, reason: &str) -> (err: McpError)
    ensures
        internal(err, lead@ + reason@),
{
    let mut m: String = lead.to_owned();
    m.append(reason);
    McpError { kind: McpErrorKind::Internal, message: m }
}

/// An error that is not about authorization is told in its own words.
pub proof fn other_errors_keep_their_words(e: StoreError)
    requires
        e.error is ItemNotFound || e.error is SaveFailed || e.error is Other,
    ensures
        mcp_message(e) == e.text@,
{
}

} // verus!
