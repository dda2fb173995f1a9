//! What the authorization service answered, and what the answer means.
//!
//! Three things can come of a call: the service could not be reached, it
//! answered outside what the endpoint allows, or the record is not there.
//! Only the last is part of normal work; the other two are failures.

use crate::api::{RemoteCall, RemoteCallView, RemoteRecord, RemoteRecordView};
use crate::resources::ResourceKind;
use vstd::prelude::*;

verus! {

/// What was made of the body of a reply.
#[derive(Debug, PartialEq, Eq)]
pub enum Decoded {
    /// The body was not looked at.
    NotRead,
    /// The body was read and is not a record of the kind asked for.
    Invalid,
    /// The body held this record.
    Record(RemoteRecord),
}

pub enum DecodedView {
    NotRead,
    Invalid,
    Record(RemoteRecordView),
}

impl View for Decoded {
    type V = DecodedView;

    open spec fn view(&self) -> DecodedView {
        match self {
            Decoded::NotRead => DecodedView::NotRead,
            Decoded::Invalid => DecodedView::Invalid,
            Decoded::Record(r) => DecodedView::Record(r@),
        }
    }
}

/// What came back for a request.
#[derive(Debug, PartialEq, Eq)]
pub enum HttpReply {
    /// No answer: the connection failed or timed out.
    Unreachable,
    /// The service answered with this status code and body.
    Response { status: u16, body: Decoded },
}

pub enum HttpReplyView {
    Unreachable,
    Response { status: u16, body: DecodedView },
}

impl View for HttpReply {
    type V = HttpReplyView;

    open spec fn view(&self) -> HttpReplyView {
        match self {
            HttpReply::Unreachable => HttpReplyView::Unreachable,
            HttpReply::Response { status, body } => HttpReplyView::Response {
                status: *status,
                body: body@,
            },
        }
    }
}

/// Why a call failed.
#[derive(Clone, Copy, Debug, PartialEq, Eq, Structural)]
pub enum RemoteFailure {
    /// The service could not be reached.
    Transport,
    /// The service answered with a status code that the endpoint does not
    /// allow.
    Status(u16),
    /// The service answered a read with success and no readable record.
    Body,
}

/// What a call came to.
#[derive(Debug, PartialEq, Eq)]
pub enum CallResult {
    /// The record that a read found.
    Found(RemoteRecord),
    /// A read found no record of that name.
    NotFound,
    /// A write or delete took effect.
    Done,
    Failed(RemoteFailure),
}

pub enum CallResultView {
    Found(RemoteRecordView),
    NotFound,
    Done,
    Failed(RemoteFailure),
}

impl View for CallResult {
    type V = CallResultView;

    open spec fn view(&self) -> CallResultView {
        match self {
            CallResult::Found(r) => CallResultView::Found(r@),
            CallResult::NotFound => CallResultView::NotFound,
            CallResult::Done => CallResultView::Done,
            CallResult::Failed(f) => CallResultView::Failed(*f),
        }
    }
}

/// The status codes that report success: 200 to 299.
pub open spec fn success_status(status: u16) -> bool {
    200 <= status <= 299
}

/// The status code that reports that there is no such record.
pub open spec fn absent_status(status: u16) -> bool {
    status == 404
}

/// Whether the status code reports success. Calls
/// `reqwest::StatusCode::from_u16` and `is_success` on its result: a number
/// that is no status code (below 100 or above 999) is none of success, and
/// of the others exactly 200 to 299 are.
#[verifier::external_body]
pub(crate) fn status_is_success(status: u16) -> (r: bool)
    ensures
        r == success_status(status),
{
    match reqwest::StatusCode::from_u16(status) {
        Ok(code) => code.is_success(),
        Err(_) => false,
    }
}

/// Whether the status code is `reqwest::StatusCode::NOT_FOUND`, which is
/// 404. Calls `reqwest::StatusCode::from_u16` and compares.
#[verifier::external_body]
pub(crate) fn status_is_not_found(status: u16) -> (r: bool)
    ensures
        r == absent_status(status),
{
    match reqwest::StatusCode::from_u16(status) {
        Ok(code) => code == reqwest::StatusCode::NOT_FOUND,
        Err(_) => false,
    }
}

/// What a reply means for a read of a record of `kind`: 404 is absence;
/// any other status outside 200 to 299 is a failure; success must bring a
/// record of that kind.
pub open spec fn read_result_view(kind: ResourceKind, reply: HttpReplyView) -> CallResultView {
    match reply {
        HttpReplyView::Unreachable => CallResultView::Failed(RemoteFailure::Transport),
        HttpReplyView::Response { status, body } => if absent_status(status) {
            CallResultView::NotFound
        } else if !success_status(status) {
            CallResultView::Failed(RemoteFailure::Status(status))
        } else {
            match body {
                DecodedView::Record(record) => if record.kind() == kind {
                    CallResultView::Found(record)
                } else {
                    CallResultView::Failed(RemoteFailure::Body)
                },
                _ => CallResultView::Failed(RemoteFailure::Body),
            }
        },
    }
}

/// What a reply means for a create or an update: 200 to 299 is success,
/// anything else a failure.
pub open spec fn write_result_view(reply: HttpReplyView) -> CallResultView {
    match reply {
        HttpReplyView::Unreachable => CallResultView::Failed(RemoteFailure::Transport),
        HttpReplyView::Response { status, .. } => if success_status(status) {
            CallResultView::Done
        } else {
            CallResultView::Failed(RemoteFailure::Status(status))
        },
    }
}

/// What a reply means for a delete: 200 to 299 is success, and so is 404,
/// for a record that is already gone is deleted.
pub open spec fn delete_result_view(reply: HttpReplyView) -> CallResultView {
    match reply {
        HttpReplyView::Unreachable => CallResultView::Failed(RemoteFailure::Transport),
        HttpReplyView::Response { status, .. } => if success_status(status) || absent_status(
            status,
        ) {
            CallResultView::Done
        } else {
            CallResultView::Failed(RemoteFailure::Status(status))
        },
    }
}

/// What a reply means for the call that it answers.
pub open spec fn interpret_view(call: RemoteCallView, reply: HttpReplyView) -> CallResultView {
    match call {
        RemoteCallView::Get { kind, .. } => read_result_view(kind, reply),
        RemoteCallView::Create(_) => write_result_view(reply),
        RemoteCallView::Update { .. } => write_result_view(reply),
        RemoteCallView::Delete { .. } => delete_result_view(reply),
    }
}

/// Whether the body of a reply with this status is to be decoded for the
/// call: only a read that was answered with success carries a record.
pub open spec fn expects_record_view(call: RemoteCallView, status: u16) -> bool {
    call is Get && success_status(status)
}

/// Whether the body of a reply with this status is to be decoded for the
/// call.
pub fn expects_record(call: &RemoteCall, status: u16) -> (r: bool)
    ensures
        r == expects_record_view(call@, status),
{
    match call {
        RemoteCall::Get { .. } => status_is_success(status),
        _ => false,
    }
}

/// What a reply means for a read of a record of `kind`.
pub fn read_result(kind: ResourceKind, reply: HttpReply) -> (r: CallResult)
    ensures
        r@ == read_result_view(kind, reply@),
{
    match reply {
        HttpReply::Unreachable => CallResult::Failed(RemoteFailure::Transport),
        HttpReply::Response { status, body } => {
            if status_is_not_found(status) {
                CallResult::NotFound
            } else if !status_is_success(status) {
                CallResult::Failed(RemoteFailure::Status(status))
            } else {
                match body {
                    Decoded::Record(record) => {
                        if record.kind() == kind {
                            CallResult::Found(record)
                        } else {
                            CallResult::Failed(RemoteFailure::Body)
                        }
                    },
                    _ => CallResult::Failed(RemoteFailure::Body),
                }
            }
        },
    }
}

/// What a reply means for a create or an update.
pub fn write_result(reply: &HttpReply) -> (r: CallResult)
    ensures
        r@ == write_result_view(reply@),
{
    match reply {
        HttpReply::Unreachable => CallResult::Failed(RemoteFailure::Transport),
        HttpReply::Response { status, .. } => {
            if status_is_success(*status) {
                CallResult::Done
            } else {
                CallResult::Failed(RemoteFailure::Status(*status))
            }
        },
    }
}

/// What a reply means for a delete.
pub fn delete_result(reply: &HttpReply) -> (r: CallResult)
    ensures
        r@ == delete_result_view(reply@),
{
    match reply {
        HttpReply::Unreachable => CallResult::Failed(RemoteFailure::Transport),
        HttpReply::Response { status, .. } => {
            if status_is_success(*status) || status_is_not_found(*status) {
                CallResult::Done
            } else {
                CallResult::Failed(RemoteFailure::Status(*status))
            }
        },
    }
}

/// What a reply means for the call that it answers.
pub fn interpret(call: &RemoteCall, reply: HttpReply) -> (r: CallResult)
    ensures
        r@ == interpret_view(call@, reply@),
{
    match call {
        RemoteCall::Get { kind, .. } => read_result(*kind, reply),
        RemoteCall::Create(_) => write_result(&reply),
        RemoteCall::Update { .. } => write_result(&reply),
        RemoteCall::Delete { .. } => delete_result(&reply),
    }
}

} // verus!
